use bitcoin::absolute;
use bitcoin::psbt::{raw, PsbtSighashType};
use bitcoin::transaction;
use bitcoin::{
    Amount, EcdsaSighashType, OutPoint, Psbt, ScriptBuf, Sequence, Transaction, TxIn, TxOut,
    Witness,
};
use psbt_guard_core::model::{AnalysisContext, EvidenceScope, FindingCode, Severity};
use psbt_guard_core::rules::{
    structural_registry, verification_registry, AnalysisRule, InputStatusRule, MissingUtxoRule,
    ProprietaryFieldsRule, SighashRule, UnknownFieldsRule,
};

fn minimal_psbt() -> Psbt {
    let unsigned_tx = Transaction {
        version: transaction::Version::TWO,
        lock_time: absolute::LockTime::ZERO,
        input: vec![TxIn {
            previous_output: OutPoint::null(),
            script_sig: ScriptBuf::new(),
            sequence: Sequence::MAX,
            witness: Witness::default(),
        }],
        output: vec![TxOut {
            value: Amount::from_sat(10_000),
            script_pubkey: ScriptBuf::new(),
        }],
    };

    Psbt::from_unsigned_tx(unsigned_tx).expect("minimal unsigned transaction is valid")
}

fn minimal_psbt_with_witness_utxo() -> Psbt {
    let mut psbt = minimal_psbt();
    let mut script_bytes = vec![0x00, 0x14];
    script_bytes.extend([0_u8; 20]);
    psbt.inputs[0].witness_utxo = Some(TxOut {
        value: Amount::from_sat(20_000),
        script_pubkey: ScriptBuf::from_bytes(script_bytes),
    });
    psbt
}

#[test]
fn passes_when_input_has_witness_utxo() {
    let ctx = AnalysisContext::from_psbt(minimal_psbt_with_witness_utxo());

    assert!(MissingUtxoRule.evaluate(&ctx).is_empty());
}

#[test]
fn warns_when_input_has_no_utxo_information() {
    let ctx = AnalysisContext::from_psbt(minimal_psbt());
    let findings = MissingUtxoRule.evaluate(&ctx);

    assert_eq!(findings.len(), 1);
    assert_eq!(findings[0].code, FindingCode::Pg101);
    assert_eq!(findings[0].severity, Severity::Warning);
    assert_eq!(findings[0].evidence.input_index, Some(0));
}

#[test]
fn passes_when_no_unknown_fields_exist() {
    let ctx = AnalysisContext::from_psbt(minimal_psbt_with_witness_utxo());

    assert!(UnknownFieldsRule.evaluate(&ctx).is_empty());
}

#[test]
fn warns_for_unknown_input_fields() {
    let mut psbt = minimal_psbt_with_witness_utxo();
    psbt.inputs[0].unknown.insert(
        raw::Key {
            type_value: 0x42,
            key: vec![0x01],
        },
        vec![0x02],
    );

    let ctx = AnalysisContext::from_psbt(psbt);
    let findings = UnknownFieldsRule.evaluate(&ctx);

    assert_eq!(findings.len(), 1);
    assert_eq!(findings[0].code, FindingCode::Pg102);
    assert_eq!(findings[0].severity, Severity::Warning);
    assert_eq!(findings[0].evidence.input_index, Some(0));
}

#[test]
fn unknown_fields_are_reported_global_first_with_counts() {
    let mut psbt = minimal_psbt_with_witness_utxo();
    psbt.outputs[0].unknown.insert(raw::Key { type_value: 0x42, key: vec![0x01] }, vec![0x02]);
    psbt.unknown.insert(raw::Key { type_value: 0x43, key: vec![0x01] }, vec![0x02]);
    psbt.unknown.insert(raw::Key { type_value: 0x43, key: vec![0x02] }, vec![0x03]);

    let ctx = AnalysisContext::from_psbt(psbt);
    let findings = UnknownFieldsRule.evaluate(&ctx);

    assert_eq!(findings.len(), 2);
    assert_eq!(findings[0].evidence.scope, Some(EvidenceScope::Global));
    assert_eq!(findings[0].evidence.actual.as_deref(), Some("2 field(s)"));
    assert_eq!(findings[1].evidence.scope, Some(EvidenceScope::Output));
    assert_eq!(findings[1].evidence.output_index, Some(0));
    assert_eq!(findings[1].evidence.actual.as_deref(), Some("1 field(s)"));
}

#[test]
fn passes_when_no_proprietary_fields_exist() {
    let ctx = AnalysisContext::from_psbt(minimal_psbt_with_witness_utxo());

    assert!(ProprietaryFieldsRule.evaluate(&ctx).is_empty());
}

#[test]
fn warns_for_proprietary_output_fields() {
    let mut psbt = minimal_psbt_with_witness_utxo();
    psbt.outputs[0].proprietary.insert(
        raw::ProprietaryKey {
            prefix: b"psbt-guard-test".to_vec(),
            subtype: 0,
            key: vec![0x01],
        },
        vec![0x02],
    );

    let ctx = AnalysisContext::from_psbt(psbt);
    let findings = ProprietaryFieldsRule.evaluate(&ctx);

    assert_eq!(findings.len(), 1);
    assert_eq!(findings[0].code, FindingCode::Pg103);
    assert_eq!(findings[0].severity, Severity::Warning);
    assert_eq!(findings[0].evidence.output_index, Some(0));
}

#[test]
fn passes_when_sighash_is_absent_or_default_all() {
    let ctx = AnalysisContext::from_psbt(minimal_psbt_with_witness_utxo());
    assert!(SighashRule.evaluate(&ctx).is_empty());

    let mut psbt = minimal_psbt_with_witness_utxo();
    psbt.inputs[0].sighash_type = Some(EcdsaSighashType::All.into());
    let ctx = AnalysisContext::from_psbt(psbt);

    assert!(SighashRule.evaluate(&ctx).is_empty());
}

#[test]
fn critical_for_non_default_sighash() {
    let mut psbt = minimal_psbt_with_witness_utxo();
    psbt.inputs[0].sighash_type = Some(PsbtSighashType::from_u32(2));

    let ctx = AnalysisContext::from_psbt(psbt);
    let findings = SighashRule.evaluate(&ctx);

    assert_eq!(findings.len(), 1);
    assert_eq!(findings[0].code, FindingCode::Pg104);
    assert_eq!(findings[0].severity, Severity::Critical);
    assert_eq!(findings[0].evidence.input_index, Some(0));
}

#[test]
fn sighash_evidence_shows_the_requested_mode() {
    let mut psbt = minimal_psbt_with_witness_utxo();
    psbt.inputs[0].sighash_type = Some(PsbtSighashType::from_u32(2));
    let findings = SighashRule.evaluate(&AnalysisContext::from_psbt(psbt));
    assert_eq!(findings[0].evidence.actual.as_deref(), Some("SIGHASH_NONE"));

    let mut psbt = minimal_psbt_with_witness_utxo();
    psbt.inputs[0].sighash_type = Some(PsbtSighashType::from_u32(0x1234));
    let findings = SighashRule.evaluate(&AnalysisContext::from_psbt(psbt));
    assert_eq!(findings[0].evidence.actual.as_deref(), Some("0x1234"));
}

#[test]
fn passes_when_input_has_no_signature_material() {
    let ctx = AnalysisContext::from_psbt(minimal_psbt_with_witness_utxo());

    assert!(InputStatusRule.evaluate(&ctx).is_empty());
}

#[test]
fn reports_finalized_input_as_info() {
    let mut psbt = minimal_psbt_with_witness_utxo();
    psbt.inputs[0].final_script_sig = Some(ScriptBuf::from_bytes(vec![0x51]));

    let ctx = AnalysisContext::from_psbt(psbt);
    let findings = InputStatusRule.evaluate(&ctx);

    assert_eq!(findings.len(), 1);
    assert_eq!(findings[0].code, FindingCode::Pg105);
    assert_eq!(findings[0].severity, Severity::Info);
    assert_eq!(findings[0].evidence.input_index, Some(0));
    assert_eq!(
        findings[0].evidence.actual.as_deref(),
        Some("finalized; 0 partial signature(s)")
    );
}

#[test]
fn registry_order_matches_catalogue_order() {
    let codes = structural_registry()
        .iter()
        .map(|rule| rule.code())
        .collect::<Vec<_>>();

    assert_eq!(
        codes,
        vec![
            FindingCode::Pg101,
            FindingCode::Pg102,
            FindingCode::Pg103,
            FindingCode::Pg104,
            FindingCode::Pg105,
        ]
    );
}

#[test]
fn verification_registry_order_matches_catalogue_order() {
    let codes = verification_registry()
        .iter()
        .map(|rule| rule.code())
        .collect::<Vec<_>>();

    assert_eq!(
        codes,
        vec![
            FindingCode::Pg101,
            FindingCode::Pg102,
            FindingCode::Pg103,
            FindingCode::Pg104,
            FindingCode::Pg105,
            FindingCode::Pg201,
            FindingCode::Pg301,
            FindingCode::Pg302,
            FindingCode::Pg303,
            FindingCode::Pg304,
        ]
    );
}
