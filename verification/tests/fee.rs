use std::str::FromStr;

use bitcoin::absolute;
use bitcoin::address::NetworkUnchecked;
use bitcoin::transaction;
use bitcoin::{
    Address, Amount, Network, OutPoint, Psbt, ScriptBuf, Sequence, Transaction, TxIn, TxOut,
    Witness,
};
use psbt_guard_core::model::{AnalysisContext, Severity};
use psbt_guard_core::rules::absolute_fee::{
    calculate_absolute_fee, AbsoluteFee, FeeCalculationError,
};
use psbt_guard_core::rules::{AbsoluteFeeRule, AnalysisRule};

const LEGACY: &str = "n2eMqTT929pb1RDNuqEnxdaLau1rxy3efi";

fn segwit_script() -> ScriptBuf {
    let mut bytes = vec![0x00, 0x14];
    bytes.extend([0_u8; 20]);
    ScriptBuf::from_bytes(bytes)
}

fn legacy_script() -> ScriptBuf {
    Address::<NetworkUnchecked>::from_str(LEGACY)
        .expect("valid address")
        .require_network(Network::Testnet)
        .expect("testnet address")
        .script_pubkey()
}

fn previous_transaction(value_sat: u64, script: ScriptBuf) -> Transaction {
    Transaction {
        version: transaction::Version::TWO,
        lock_time: absolute::LockTime::ZERO,
        input: vec![TxIn {
            previous_output: OutPoint::null(),
            script_sig: ScriptBuf::new(),
            sequence: Sequence::MAX,
            witness: Witness::default(),
        }],
        output: vec![TxOut { value: Amount::from_sat(value_sat), script_pubkey: script }],
    }
}

fn spending_psbt(previous_output: OutPoint, outputs: Vec<u64>) -> Psbt {
    let unsigned_tx = Transaction {
        version: transaction::Version::TWO,
        lock_time: absolute::LockTime::ZERO,
        input: vec![TxIn {
            previous_output,
            script_sig: ScriptBuf::new(),
            sequence: Sequence::MAX,
            witness: Witness::default(),
        }],
        output: outputs
            .into_iter()
            .map(|value| TxOut { value: Amount::from_sat(value), script_pubkey: segwit_script() })
            .collect(),
    };
    Psbt::from_unsigned_tx(unsigned_tx).expect("valid unsigned transaction")
}

#[test]
fn fee_uses_the_matching_previous_transaction() {
    let previous = previous_transaction(50_000, legacy_script());
    let outpoint = OutPoint { txid: previous.compute_txid(), vout: 0 };
    let mut psbt = spending_psbt(outpoint, vec![45_000]);
    psbt.inputs[0].non_witness_utxo = Some(previous);

    let ctx = AnalysisContext::from_psbt(psbt);
    assert_eq!(
        calculate_absolute_fee(&ctx),
        Ok(AbsoluteFee { input_total_sat: 50_000, output_total_sat: 45_000, fee_sat: 5_000 })
    );
}

#[test]
fn previous_transaction_with_other_txid_is_rejected() {
    let previous = previous_transaction(50_000, legacy_script());
    let mut psbt = spending_psbt(OutPoint::null(), vec![45_000]);
    psbt.inputs[0].non_witness_utxo = Some(previous);

    let ctx = AnalysisContext::from_psbt(psbt);
    assert_eq!(
        calculate_absolute_fee(&ctx),
        Err(FeeCalculationError::MismatchedNonWitnessUtxo { input_index: 0 })
    );
    let findings = AbsoluteFeeRule.evaluate(&ctx);
    assert_eq!(findings[0].severity, Severity::Warning);
    assert_eq!(
        findings[0].evidence.actual.as_deref(),
        Some("input #0 non_witness_utxo txid does not match its previous output")
    );
}

#[test]
fn previous_transaction_without_the_spent_output_is_rejected() {
    let previous = previous_transaction(50_000, legacy_script());
    let outpoint = OutPoint { txid: previous.compute_txid(), vout: 3 };
    let mut psbt = spending_psbt(outpoint, vec![45_000]);
    psbt.inputs[0].non_witness_utxo = Some(previous);

    let ctx = AnalysisContext::from_psbt(psbt);
    let error = calculate_absolute_fee(&ctx).expect_err("vout 3 does not exist");
    assert_eq!(error, FeeCalculationError::InvalidPreviousOutput { input_index: 0, vout: 3 });
    assert_eq!(error.message(), "input #0 references missing non_witness_utxo output #3");
}

#[test]
fn witness_utxo_must_agree_with_previous_transaction() {
    let previous = previous_transaction(50_000, segwit_script());
    let outpoint = OutPoint { txid: previous.compute_txid(), vout: 0 };
    let mut psbt = spending_psbt(outpoint, vec![45_000]);
    psbt.inputs[0].non_witness_utxo = Some(previous);
    psbt.inputs[0].witness_utxo =
        Some(TxOut { value: Amount::from_sat(90_000), script_pubkey: segwit_script() });

    let ctx = AnalysisContext::from_psbt(psbt.clone());
    assert_eq!(
        calculate_absolute_fee(&ctx),
        Err(FeeCalculationError::InconsistentUtxo { input_index: 0 })
    );

    psbt.inputs[0].witness_utxo =
        Some(TxOut { value: Amount::from_sat(50_000), script_pubkey: segwit_script() });
    let ctx = AnalysisContext::from_psbt(psbt);
    assert_eq!(calculate_absolute_fee(&ctx).map(|fee| fee.fee_sat), Ok(5_000));
}

#[test]
fn witness_only_data_for_a_legacy_output_is_rejected() {
    let mut psbt = spending_psbt(OutPoint::null(), vec![45_000]);
    psbt.inputs[0].witness_utxo =
        Some(TxOut { value: Amount::from_sat(50_000), script_pubkey: legacy_script() });

    let ctx = AnalysisContext::from_psbt(psbt);
    let error = calculate_absolute_fee(&ctx).expect_err("legacy output needs the full transaction");
    assert_eq!(error, FeeCalculationError::LegacyWitnessUtxo { input_index: 0 });
    assert_eq!(error.message(), "input #0 supplies only witness_utxo for a legacy output");
}

#[test]
fn output_total_overflow_is_reported_not_wrapped() {
    let mut psbt = spending_psbt(OutPoint::null(), vec![u64::MAX, 1]);
    psbt.inputs[0].witness_utxo =
        Some(TxOut { value: Amount::from_sat(50_000), script_pubkey: segwit_script() });

    let ctx = AnalysisContext::from_psbt(psbt);
    assert_eq!(calculate_absolute_fee(&ctx), Err(FeeCalculationError::AmountOverflow));
    let findings = AbsoluteFeeRule.evaluate(&ctx);
    assert_eq!(findings[0].severity, Severity::Warning);
    assert_eq!(
        findings[0].explanation,
        "The absolute fee could not be calculated because transaction amount totals overflowed u64."
    );
}

#[test]
fn missing_utxo_message_names_the_input() {
    assert_eq!(
        FeeCalculationError::MissingUtxo { input_index: 12 }.message(),
        "input #12 has no funding UTXO"
    );
    assert_eq!(
        FeeCalculationError::OutputsExceedInputs { input_total_sat: 7, output_total_sat: 9 }
            .message(),
        "output total 9 sat exceeds input total 7 sat"
    );
}

#[test]
fn witness_only_data_for_a_bare_multisig_output_is_rejected() {
    // OP_1 <33-byte key> OP_1 OP_CHECKMULTISIG
    let mut bytes = vec![0x51, 0x21, 0x02];
    bytes.extend([0x11_u8; 32]);
    bytes.extend([0x51, 0xae]);
    let mut psbt = spending_psbt(OutPoint::null(), vec![45_000]);
    psbt.inputs[0].witness_utxo =
        Some(TxOut { value: Amount::from_sat(50_000), script_pubkey: ScriptBuf::from_bytes(bytes) });

    let ctx = AnalysisContext::from_psbt(psbt);
    assert_eq!(
        calculate_absolute_fee(&ctx),
        Err(FeeCalculationError::LegacyWitnessUtxo { input_index: 0 })
    );
}

#[test]
fn witness_only_data_for_p2sh_and_taproot_outputs_is_accepted() {
    let mut p2sh = vec![0xa9, 0x14];
    p2sh.extend([0x22_u8; 20]);
    p2sh.push(0x87);
    let mut taproot = vec![0x51, 0x20];
    taproot.extend([0x33_u8; 32]);
    for script in [p2sh, taproot] {
        let mut psbt = spending_psbt(OutPoint::null(), vec![45_000]);
        psbt.inputs[0].witness_utxo =
            Some(TxOut { value: Amount::from_sat(50_000), script_pubkey: ScriptBuf::from_bytes(script) });
        let ctx = AnalysisContext::from_psbt(psbt);
        assert_eq!(calculate_absolute_fee(&ctx).map(|fee| fee.fee_sat), Ok(5_000));
    }
}
