use std::str::FromStr;

use bitcoin::absolute;
use bitcoin::address::NetworkUnchecked;
use bitcoin::psbt::PsbtSighashType;
use bitcoin::transaction;
use bitcoin::{
    Address, Amount, Network, OutPoint, Psbt, ScriptBuf, Sequence, Transaction, TxIn, TxOut,
    Witness,
};
use psbt_guard_core::facts::{FieldCounts, InputFacts, PsbtFacts, SigningFacts, TxOutputFacts};
use psbt_guard_core::intent::{validate, ChangePolicy, FeePolicy, RawIntent, RawRecipientIntent};
use psbt_guard_core::model::{AnalysisContext, FindingCode, Severity};
use psbt_guard_core::report::analyze;
use psbt_guard_core::rules::{
    structural_registry, verification_registry, AnalysisRule, RecipientAddressRule,
    RecipientAmountRule, Rule,
};

const RECIPIENT: &str = "mipcBbFg9gMiCh81Kj8tqqdgoZub1ZJRfn";
const OTHER: &str = "n2eMqTT929pb1RDNuqEnxdaLau1rxy3efi";

fn script(address: &str) -> ScriptBuf {
    Address::<NetworkUnchecked>::from_str(address)
        .expect("valid address")
        .require_network(Network::Testnet)
        .expect("testnet address")
        .script_pubkey()
}

fn psbt_paying(outputs: Vec<(&str, u64)>) -> Psbt {
    let unsigned_tx = Transaction {
        version: transaction::Version::TWO,
        lock_time: absolute::LockTime::ZERO,
        input: vec![TxIn {
            previous_output: OutPoint::null(),
            script_sig: ScriptBuf::new(),
            sequence: Sequence::MAX,
            witness: Witness::default(),
        }],
        output: outputs
            .into_iter()
            .map(|(address, value)| TxOut { value: Amount::from_sat(value), script_pubkey: script(address) })
            .collect(),
    };
    Psbt::from_unsigned_tx(unsigned_tx).expect("valid unsigned transaction")
}

fn intent(amount_sat: u64) -> psbt_guard_core::intent::Intent {
    validate(RawIntent {
        network: "testnet".to_owned(),
        recipients: vec![RawRecipientIntent {
            address: RECIPIENT.to_owned(),
            amount_sat,
            amount_tolerance_sat: 0,
        }],
        fee_policy: FeePolicy::new(1_000),
        change_policy: ChangePolicy::new(0),
    })
    .expect("valid intent")
}

#[test]
fn verification_report_starts_with_the_inspection_report() {
    let mut psbt = psbt_paying(vec![(OTHER, 60_000)]);
    psbt.inputs[0].sighash_type = Some(PsbtSighashType::from_u32(3));
    let inspect = analyze(&AnalysisContext::from_psbt(psbt.clone()), &structural_registry());
    let verify = analyze(&AnalysisContext::with_intent(psbt, intent(60_000)), &verification_registry());

    assert!(verify.findings.len() > inspect.findings.len());
    assert_eq!(&verify.findings[..inspect.findings.len()], &inspect.findings[..]);
    assert!(verify.has_blocking_findings);
    assert_eq!(
        verify.summary.total,
        verify.summary.info + verify.summary.warning + verify.summary.violation + verify.summary.critical
    );
}

#[test]
fn every_finding_carries_its_rule_code() {
    let psbt = psbt_paying(vec![(OTHER, 60_000), (OTHER, 1)]);
    let ctx = AnalysisContext::with_intent(psbt, intent(60_000));
    for rule in verification_registry() {
        for finding in rule.evaluate(&ctx) {
            assert_eq!(finding.code, rule.code());
        }
    }
    assert_eq!(Rule::UndeclaredOutput.code(), FindingCode::Pg303);
}

#[test]
fn missing_recipient_is_reported_once_by_the_address_rule() {
    let ctx = AnalysisContext::with_intent(psbt_paying(vec![(OTHER, 60_000)]), intent(60_000));
    assert_eq!(RecipientAddressRule.evaluate(&ctx).len(), 1);
    assert!(RecipientAmountRule.evaluate(&ctx).is_empty());
}

#[test]
fn facts_written_directly_are_analyzed_like_decoded_ones() {
    let facts = PsbtFacts {
        tx_inputs: vec![],
        tx_outputs: vec![TxOutputFacts { value_sat: 5, script_pubkey: vec![0xab, 0x01] }],
        inputs: vec![InputFacts {
            witness_utxo: None,
            non_witness_utxo: None,
            signing: SigningFacts {
                sighash_type: Some(0x81),
                has_final_script_sig: false,
                has_final_script_witness: false,
                partial_sig_count: 2,
                tap_script_sig_count: 1,
                has_tap_key_sig: true,
            },
            fields: FieldCounts { unknown: 0, proprietary: 3 },
        }],
        outputs: vec![FieldCounts { unknown: 0, proprietary: 0 }],
        global_fields: FieldCounts { unknown: 0, proprietary: 0 },
    };
    let ctx = AnalysisContext::from_facts(facts, None);
    let report = analyze(&ctx, &structural_registry());
    let codes: Vec<_> = report.findings.iter().map(|f| f.code).collect();
    assert_eq!(
        codes,
        vec![FindingCode::Pg101, FindingCode::Pg103, FindingCode::Pg104, FindingCode::Pg105]
    );
    assert_eq!(report.findings[1].evidence.actual.as_deref(), Some("3 field(s)"));
    assert_eq!(
        report.findings[2].evidence.actual.as_deref(),
        Some("SIGHASH_ALL|SIGHASH_ANYONECANPAY")
    );
    assert_eq!(
        report.findings[3].evidence.actual.as_deref(),
        Some("partially signed; 4 partial signature(s)")
    );
    assert_eq!(report.summary.critical, 1);
}

#[test]
fn undeclared_output_without_address_form_is_shown_as_script_hex() {
    let facts = PsbtFacts {
        tx_inputs: vec![],
        tx_outputs: vec![TxOutputFacts { value_sat: 5, script_pubkey: vec![0xab, 0x01] }],
        inputs: vec![],
        outputs: vec![],
        global_fields: FieldCounts { unknown: 0, proprietary: 0 },
    };
    let ctx = AnalysisContext::from_facts(facts, Some(intent(60_000)));
    let report = analyze(&ctx, &[Rule::UndeclaredOutput, Rule::RecipientAddress]);
    assert_eq!(report.findings[0].severity, Severity::Violation);
    assert_eq!(
        report.findings[0].evidence.actual.as_deref(),
        Some("destination=script_hex=ab01 amount_sat=5 undeclared_count=1 max_change_outputs=0")
    );
    assert_eq!(report.findings[1].code, FindingCode::Pg301);
    assert_eq!(
        report.findings[1].evidence.actual.as_deref(),
        Some("mipcBbFg9gMiCh81Kj8tqqdgoZub1ZJRfn not found")
    );
}

#[test]
fn fee_within_ceiling_is_clean_and_report_is_deterministic() {
    let mut psbt = psbt_paying(vec![(RECIPIENT, 60_000)]);
    let mut bytes = vec![0x00, 0x14];
    bytes.extend([0_u8; 20]);
    psbt.inputs[0].witness_utxo =
        Some(TxOut { value: Amount::from_sat(61_000), script_pubkey: ScriptBuf::from_bytes(bytes) });
    let first = analyze(&AnalysisContext::with_intent(psbt.clone(), intent(60_000)), &verification_registry());
    let second = analyze(&AnalysisContext::with_intent(psbt, intent(60_000)), &verification_registry());
    assert_eq!(first, second);
    assert!(!first.has_blocking_findings);
    assert_eq!(first.findings.len(), 1);
    assert_eq!(first.findings[0].code, FindingCode::Pg201);
}
