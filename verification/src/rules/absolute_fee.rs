//! PG201: absolute fee accounting.
//!
//! The fee is the total value of the funding outputs minus the total value
//! of the transaction outputs. Every supplied previous transaction
//! (`non_witness_utxo`) is validated against the outpoint it funds and
//! reconciled with `witness_utxo` when both are present; `witness_utxo` alone
//! is rejected for legacy outputs (P2PKH, P2PK and bare multisig).
//! Totals use checked arithmetic.

use vstd::prelude::*;

use crate::facts::{InputFacts, PsbtFacts, TxInputFacts, TxOutputFacts};
use crate::model::{AnalysisContext, Evidence, Finding, FindingCode, FindingView, Severity};
use crate::rules::AnalysisRule;
use crate::text::{bytes_equal, decimal_string};

verus! {

/// Successful absolute-fee accounting.
#[derive(Clone, Copy, Debug, PartialEq, Eq, Structural)]
pub struct AbsoluteFee {
    /// Total value of the funding outputs.
    pub input_total_sat: u64,
    /// Total value of the transaction outputs.
    pub output_total_sat: u64,
    /// `input_total_sat - output_total_sat`.
    pub fee_sat: u64,
}

/// Why fee accounting could not produce a non-negative absolute fee.
#[derive(Clone, Copy, Debug, PartialEq, Eq, Structural)]
pub enum FeeCalculationError {
    /// The input has neither `witness_utxo` nor `non_witness_utxo`.
    MissingUtxo { input_index: usize },
    /// The supplied previous transaction's txid is not the outpoint's txid.
    MismatchedNonWitnessUtxo { input_index: usize },
    /// The supplied previous transaction has no output at the outpoint's index.
    InvalidPreviousOutput { input_index: usize, vout: u32 },
    /// `witness_utxo` differs from the spent output of `non_witness_utxo`.
    InconsistentUtxo { input_index: usize },
    /// Only `witness_utxo` is supplied, but it locks a legacy output.
    LegacyWitnessUtxo { input_index: usize },
    /// A total does not fit in 64 bits.
    AmountOverflow,
    /// The outputs spend more than the inputs provide.
    OutputsExceedInputs { input_total_sat: u64, output_total_sat: u64 },
}

/// P2PKH: `OP_DUP OP_HASH160 <20 bytes> OP_EQUALVERIFY OP_CHECKSIG`.
pub open spec fn is_p2pkh(s: Seq<u8>) -> bool {
    &&& s.len() == 25
    &&& s[0] == 0x76u8
    &&& s[1] == 0xa9u8
    &&& s[2] == 0x14u8
    &&& s[23] == 0x88u8
    &&& s[24] == 0xacu8
}

/// P2PK: a pushed 33- or 65-byte public key followed by `OP_CHECKSIG`.
pub open spec fn is_p2pk(s: Seq<u8>) -> bool {
    ||| s.len() == 35 && s[0] == 0x21u8 && s[34] == 0xacu8
    ||| s.len() == 67 && s[0] == 0x41u8 && s[66] == 0xacu8
}

/// The number of public-key pushes (a direct push of 33 or 65 bytes each)
/// that `s` consists of; `None` when it is not such a run of pushes.
pub open spec fn key_push_count(s: Seq<u8>) -> Option<nat>
    decreases s.len(),
{
    if s.len() == 0 {
        Some(0)
    } else if s[0] == 0x21u8 && s.len() >= 34 {
        match key_push_count(s.skip(34)) {
            Some(k) => Some(k + 1),
            None => None,
        }
    } else if s[0] == 0x41u8 && s.len() >= 66 {
        match key_push_count(s.skip(66)) {
            Some(k) => Some(k + 1),
            None => None,
        }
    } else {
        None
    }
}

/// Bare multisig: `OP_m <key 1> .. <key n> OP_n OP_CHECKMULTISIG` with
/// `1 <= m <= n <= 16` and each key a pushed 33- or 65-byte public key.
pub open spec fn is_bare_multisig(s: Seq<u8>) -> bool {
    &&& s.len() >= 3
    &&& 0x51u8 <= s[0] && s[0] <= 0x60u8
    &&& 0x51u8 <= s[s.len() - 2] && s[s.len() - 2] <= 0x60u8
    &&& s[0] <= s[s.len() - 2]
    &&& s[s.len() - 1] == 0xaeu8
    &&& key_push_count(s.subrange(1, s.len() - 2)) == Some((s[s.len() - 2] - 0x50u8) as nat)
}

/// Legacy output templates: P2PKH, P2PK and bare multisig. They are spent
/// without witness data, so their value is only trusted from the full
/// previous transaction.
pub open spec fn is_legacy_script(s: Seq<u8>) -> bool {
    is_p2pkh(s) || is_p2pk(s) || is_bare_multisig(s)
}

/// Count the public-key pushes of `s[start..end]`, as [`key_push_count`].
fn count_key_pushes(s: &[u8], start: usize, end: usize) -> (r: Option<usize>)
    requires
        start <= end <= s.len(),
    ensures
        match key_push_count(s@.subrange(start as int, end as int)) {
            Some(k) => r matches Some(c) && c == k,
            None => r is None,
        },
{
    let mut i = start;
    let mut count: usize = 0;
    while i < end
        invariant
            start <= i <= end <= s.len(),
            count <= i - start,
            match key_push_count(s@.subrange(start as int, end as int)) {
                Some(k) => match key_push_count(s@.subrange(i as int, end as int)) {
                    Some(j) => k == j + count,
                    None => false,
                },
                None => key_push_count(s@.subrange(i as int, end as int)) is None,
            },
        decreases end - i,
    {
        let ghost rest = s@.subrange(i as int, end as int);
        if s[i] == 0x21 && end - i >= 34 {
            assert(rest.skip(34) =~= s@.subrange(i + 34, end as int));
            i = i + 34;
        } else if s[i] == 0x41 && end - i >= 66 {
            assert(rest.skip(66) =~= s@.subrange(i + 66, end as int));
            i = i + 66;
        } else {
            return None;
        }
        count = count + 1;
    }
    assert(s@.subrange(i as int, end as int).len() == 0);
    Some(count)
}

/// Whether a locking script is a legacy output template.
pub fn legacy_script(s: &[u8]) -> (r: bool)
    ensures
        r == is_legacy_script(s@),
{
    let n = s.len();
    let p2pkh = n == 25 && s[0] == 0x76 && s[1] == 0xa9 && s[2] == 0x14 && s[23] == 0x88 && s[24] == 0xac;
    let p2pk = (n == 35 && s[0] == 0x21 && s[34] == 0xac) || (n == 67 && s[0] == 0x41 && s[66] == 0xac);
    if p2pkh || p2pk {
        return true;
    }
    if n < 3 || s[n - 1] != 0xae {
        return false;
    }
    let m = s[0];
    let k = s[n - 2];
    if !(0x51 <= m && m <= 0x60 && 0x51 <= k && k <= 0x60 && m <= k) {
        return false;
    }
    match count_key_pushes(s, 1, n - 2) {
        Some(c) => c == (k - 0x50) as usize,
        None => false,
    }
}

/// Two descriptions of an output agree on value and script.
pub open spec fn same_output(a: TxOutputFacts, b: TxOutputFacts) -> bool {
    a.value_sat == b.value_sat && a.script_pubkey@ == b.script_pubkey@
}

/// The value input `index` spends, or why it cannot be established.
pub open spec fn funding_value(index: int, tx_in: TxInputFacts, input: InputFacts) -> Result<
    u64,
    FeeCalculationError,
> {
    match input.non_witness_utxo {
        Some(prev) => if prev.txid@ != tx_in.previous_txid@ {
            Err(FeeCalculationError::MismatchedNonWitnessUtxo { input_index: index as usize })
        } else if tx_in.previous_vout >= prev.outputs.len() {
            Err(
                FeeCalculationError::InvalidPreviousOutput {
                    input_index: index as usize,
                    vout: tx_in.previous_vout,
                },
            )
        } else {
            let spent = prev.outputs@[tx_in.previous_vout as int];
            match input.witness_utxo {
                Some(w) => if same_output(w, spent) {
                    Ok(spent.value_sat)
                } else {
                    Err(FeeCalculationError::InconsistentUtxo { input_index: index as usize })
                },
                None => Ok(spent.value_sat),
            }
        },
        None => match input.witness_utxo {
            Some(w) => if is_legacy_script(w.script_pubkey@) {
                Err(FeeCalculationError::LegacyWitnessUtxo { input_index: index as usize })
            } else {
                Ok(w.value_sat)
            },
            None => Err(FeeCalculationError::MissingUtxo { input_index: index as usize }),
        },
    }
}

/// Number of inputs that fee accounting pairs: unsigned-transaction inputs
/// with their PSBT input maps.
pub open spec fn paired_inputs(facts: PsbtFacts) -> nat {
    if facts.tx_inputs.len() <= facts.inputs.len() {
        facts.tx_inputs.len() as nat
    } else {
        facts.inputs.len() as nat
    }
}

/// Checked running total of the first `n` funding values.
pub open spec fn funding_total(facts: PsbtFacts, n: nat) -> Result<u64, FeeCalculationError>
    decreases n,
{
    if n == 0 {
        Ok(0u64)
    } else {
        match funding_total(facts, (n - 1) as nat) {
            Err(e) => Err(e),
            Ok(t) => match funding_value(
                n - 1,
                facts.tx_inputs@[n - 1],
                facts.inputs@[n - 1],
            ) {
                Err(e) => Err(e),
                Ok(v) => if t + v > u64::MAX {
                    Err(FeeCalculationError::AmountOverflow)
                } else {
                    Ok((t + v) as u64)
                },
            },
        }
    }
}

/// Checked running total of the first `n` output values.
pub open spec fn output_total(outputs: Seq<TxOutputFacts>, n: nat) -> Result<u64, FeeCalculationError>
    decreases n,
{
    if n == 0 {
        Ok(0u64)
    } else {
        match output_total(outputs, (n - 1) as nat) {
            Err(e) => Err(e),
            Ok(t) => if t + outputs[n - 1].value_sat > u64::MAX {
                Err(FeeCalculationError::AmountOverflow)
            } else {
                Ok((t + outputs[n - 1].value_sat) as u64)
            },
        }
    }
}

/// The absolute fee of a PSBT, or why it cannot be calculated.
pub open spec fn absolute_fee_spec(facts: PsbtFacts) -> Result<AbsoluteFee, FeeCalculationError> {
    match funding_total(facts, paired_inputs(facts)) {
        Err(e) => Err(e),
        Ok(input_total) => match output_total(facts.tx_outputs@, facts.tx_outputs.len() as nat) {
            Err(e) => Err(e),
            Ok(out_total) => if out_total > input_total {
                Err(
                    FeeCalculationError::OutputsExceedInputs {
                        input_total_sat: input_total,
                        output_total_sat: out_total,
                    },
                )
            } else {
                Ok(
                    AbsoluteFee {
                        input_total_sat: input_total,
                        output_total_sat: out_total,
                        fee_sat: (input_total - out_total) as u64,
                    },
                )
            },
        },
    }
}

/// An error in the first `k` inputs is the error of every longer prefix.
proof fn lemma_funding_error_persists(facts: PsbtFacts, k: nat, n: nat)
    requires
        k <= n,
        funding_total(facts, k) is Err,
    ensures
        funding_total(facts, n) == funding_total(facts, k),
    decreases n,
{
    if n > k {
        lemma_funding_error_persists(facts, k, (n - 1) as nat);
    }
}

/// An error in the first `k` outputs is the error of every longer prefix.
proof fn lemma_output_error_persists(outputs: Seq<TxOutputFacts>, k: nat, n: nat)
    requires
        k <= n,
        output_total(outputs, k) is Err,
    ensures
        output_total(outputs, n) == output_total(outputs, k),
    decreases n,
{
    if n > k {
        lemma_output_error_persists(outputs, k, (n - 1) as nat);
    }
}

/// The value input `index` spends, or why it cannot be established.
fn input_funding_value(index: usize, tx_in: &TxInputFacts, input: &InputFacts) -> (r: Result<
    u64,
    FeeCalculationError,
>)
    ensures
        r == funding_value(index as int, *tx_in, *input),
{
    match &input.non_witness_utxo {
        Some(prev) => {
            if !bytes_equal(prev.txid.as_slice(), tx_in.previous_txid.as_slice()) {
                return Err(FeeCalculationError::MismatchedNonWitnessUtxo { input_index: index });
            }
            let vout = tx_in.previous_vout;
            if vout as usize >= prev.outputs.len() {
                return Err(FeeCalculationError::InvalidPreviousOutput { input_index: index, vout });
            }
            let spent = &prev.outputs[vout as usize];
            match &input.witness_utxo {
                Some(w) => {
                    if w.value_sat == spent.value_sat && bytes_equal(
                        w.script_pubkey.as_slice(),
                        spent.script_pubkey.as_slice(),
                    ) {
                        Ok(spent.value_sat)
                    } else {
                        Err(FeeCalculationError::InconsistentUtxo { input_index: index })
                    }
                },
                None => Ok(spent.value_sat),
            }
        },
        None => match &input.witness_utxo {
            Some(w) => {
                if legacy_script(w.script_pubkey.as_slice()) {
                    Err(FeeCalculationError::LegacyWitnessUtxo { input_index: index })
                } else {
                    Ok(w.value_sat)
                }
            },
            None => Err(FeeCalculationError::MissingUtxo { input_index: index }),
        },
    }
}

/// Calculate the absolute fee of the PSBT under review.
pub fn calculate_absolute_fee(ctx: &AnalysisContext) -> (r: Result<AbsoluteFee, FeeCalculationError>)
    ensures
        r == absolute_fee_spec(ctx.facts()),
{
    let facts = ctx.psbt();
    let ghost f = *facts;
    let n = if facts.tx_inputs.len() <= facts.inputs.len() {
        facts.tx_inputs.len()
    } else {
        facts.inputs.len()
    };
    let mut input_total: u64 = 0;
    let mut i: usize = 0;
    while i < n
        invariant
            f == *facts,
            f == ctx.facts(),
            n == paired_inputs(f),
            n <= facts.tx_inputs.len(),
            n <= facts.inputs.len(),
            i <= n,
            funding_total(f, i as nat) == Ok::<u64, FeeCalculationError>(input_total),
        decreases n - i,
    {
        let value = match input_funding_value(i, &facts.tx_inputs[i], &facts.inputs[i]) {
            Ok(v) => v,
            Err(e) => {
                proof {
                    lemma_funding_error_persists(f, (i + 1) as nat, n as nat);
                }
                return Err(e);
            },
        };
        input_total = match input_total.checked_add(value) {
            Some(t) => t,
            None => {
                proof {
                    lemma_funding_error_persists(f, (i + 1) as nat, n as nat);
                }
                return Err(FeeCalculationError::AmountOverflow);
            },
        };
        i = i + 1;
    }

    let outputs = &facts.tx_outputs;
    let mut output_sum: u64 = 0;
    let mut j: usize = 0;
    while j < outputs.len()
        invariant
            f == ctx.facts(),
            outputs@ == f.tx_outputs@,
            funding_total(f, paired_inputs(f)) == Ok::<u64, FeeCalculationError>(input_total),
            j <= outputs.len(),
            output_total(outputs@, j as nat) == Ok::<u64, FeeCalculationError>(output_sum),
        decreases outputs.len() - j,
    {
        output_sum = match output_sum.checked_add(outputs[j].value_sat) {
            Some(t) => t,
            None => {
                proof {
                    lemma_output_error_persists(outputs@, (j + 1) as nat, outputs.len() as nat);
                }
                return Err(FeeCalculationError::AmountOverflow);
            },
        };
        j = j + 1;
    }

    if output_sum > input_total {
        return Err(
            FeeCalculationError::OutputsExceedInputs {
                input_total_sat: input_total,
                output_total_sat: output_sum,
            },
        );
    }
    Ok(
        AbsoluteFee {
            input_total_sat: input_total,
            output_total_sat: output_sum,
            fee_sat: input_total - output_sum,
        },
    )
}

/// Plain-language description of a fee accounting failure.
pub open spec fn fee_error_text(e: FeeCalculationError) -> Seq<char> {
    match e {
        FeeCalculationError::MissingUtxo { input_index } => "input #"@ + crate::text::decimal(
            input_index as nat,
        ) + " has no funding UTXO"@,
        FeeCalculationError::MismatchedNonWitnessUtxo { input_index } => "input #"@
            + crate::text::decimal(input_index as nat)
            + " non_witness_utxo txid does not match its previous output"@,
        FeeCalculationError::InvalidPreviousOutput { input_index, vout } => "input #"@
            + crate::text::decimal(input_index as nat)
            + " references missing non_witness_utxo output #"@ + crate::text::decimal(vout as nat),
        FeeCalculationError::InconsistentUtxo { input_index } => "input #"@ + crate::text::decimal(
            input_index as nat,
        ) + " witness_utxo does not match the spent non_witness_utxo output"@,
        FeeCalculationError::LegacyWitnessUtxo { input_index } => "input #"@
            + crate::text::decimal(input_index as nat)
            + " supplies only witness_utxo for a legacy output"@,
        FeeCalculationError::AmountOverflow => "transaction amount totals overflowed u64"@,
        FeeCalculationError::OutputsExceedInputs { input_total_sat, output_total_sat } =>
            "output total "@ + crate::text::decimal(output_total_sat as nat)
            + " sat exceeds input total "@ + crate::text::decimal(input_total_sat as nat) + " sat"@,
    }
}

impl FeeCalculationError {
    /// Plain-language description of the failure.
    pub fn message(&self) -> (s: String)
        ensures
            s@ == fee_error_text(*self),
    {
        match *self {
            FeeCalculationError::MissingUtxo { input_index } => {
                let mut s = "input #".to_owned();
                s.append(decimal_string(input_index as u128).as_str());
                s.append(" has no funding UTXO");
                s
            },
            FeeCalculationError::MismatchedNonWitnessUtxo { input_index } => {
                let mut s = "input #".to_owned();
                s.append(decimal_string(input_index as u128).as_str());
                s.append(" non_witness_utxo txid does not match its previous output");
                s
            },
            FeeCalculationError::InvalidPreviousOutput { input_index, vout } => {
                let mut s = "input #".to_owned();
                s.append(decimal_string(input_index as u128).as_str());
                s.append(" references missing non_witness_utxo output #");
                s.append(decimal_string(vout as u128).as_str());
                s
            },
            FeeCalculationError::InconsistentUtxo { input_index } => {
                let mut s = "input #".to_owned();
                s.append(decimal_string(input_index as u128).as_str());
                s.append(" witness_utxo does not match the spent non_witness_utxo output");
                s
            },
            FeeCalculationError::LegacyWitnessUtxo { input_index } => {
                let mut s = "input #".to_owned();
                s.append(decimal_string(input_index as u128).as_str());
                s.append(" supplies only witness_utxo for a legacy output");
                s
            },
            FeeCalculationError::AmountOverflow => "transaction amount totals overflowed u64".to_owned(),
            FeeCalculationError::OutputsExceedInputs { input_total_sat, output_total_sat } => {
                let mut s = "output total ".to_owned();
                s.append(decimal_string(output_total_sat as u128).as_str());
                s.append(" sat exceeds input total ");
                s.append(decimal_string(input_total_sat as u128).as_str());
                s.append(" sat");
                s
            },
        }
    }
}

/// PG201: report the absolute fee, or why it cannot be calculated.
pub struct AbsoluteFeeRule;

/// Evidence detail of a calculated fee.
pub open spec fn fee_totals_text(fee: AbsoluteFee) -> Seq<char> {
    "input_total_sat="@ + crate::text::decimal(fee.input_total_sat as nat) + " output_total_sat="@
        + crate::text::decimal(fee.output_total_sat as nat) + " fee_sat="@ + crate::text::decimal(
        fee.fee_sat as nat,
    )
}

/// The PG201 finding for a PSBT: `Info` with the fee when it is calculable,
/// `Critical` when outputs exceed inputs, `Warning` otherwise.
pub open spec fn absolute_fee_finding(r: Result<AbsoluteFee, FeeCalculationError>) -> FindingView {
    match r {
        Ok(fee) => FindingView {
            code: FindingCode::Pg201,
            severity: Severity::Info,
            title: "Absolute fee calculated"@,
            explanation: "All funding UTXOs are present. The transaction pays an absolute fee of "@
                + crate::text::decimal(fee.fee_sat as nat) + " sat."@,
            evidence: crate::model::global_evidence("absolute_fee"@, fee_totals_text(fee)),
            suggested_action: "Compare the fee with your declared ceiling and expected transaction size before signing."@,
        },
        Err(e) => if e is OutputsExceedInputs {
            FindingView {
                code: FindingCode::Pg201,
                severity: Severity::Critical,
                title: "Invalid transaction value balance"@,
                explanation: "Absolute fee accounting failed because "@ + fee_error_text(e) + "."@,
                evidence: crate::model::global_evidence("absolute_fee"@, fee_error_text(e)),
                suggested_action: "Do not sign; ask the PSBT creator to correct the transaction inputs and outputs."@,
            }
        } else {
            FindingView {
                code: FindingCode::Pg201,
                severity: Severity::Warning,
                title: "Absolute fee unavailable"@,
                explanation: "The absolute fee could not be calculated because "@ + fee_error_text(e)
                    + "."@,
                evidence: crate::model::global_evidence("absolute_fee"@, fee_error_text(e)),
                suggested_action: "Require complete, matching funding UTXO data before relying on fee verification."@,
            }
        },
    }
}

/// All PG201 findings of a PSBT: always exactly one.
pub open spec fn absolute_fee_findings(facts: PsbtFacts) -> Seq<FindingView> {
    seq![absolute_fee_finding(absolute_fee_spec(facts))]
}

impl AnalysisRule for AbsoluteFeeRule {
    fn code(&self) -> (c: FindingCode)
        ensures
            c == FindingCode::Pg201,
    {
        FindingCode::Pg201
    }

    fn name(&self) -> (r: &'static str)
        ensures
            r@ == "Absolute fee calculation"@,
    {
        "Absolute fee calculation"
    }

    fn evaluate(&self, ctx: &AnalysisContext) -> (r: Vec<Finding>)
        ensures
            crate::model::findings_view(r@) == absolute_fee_findings(ctx.facts()),
    {
        let result = calculate_absolute_fee(ctx);
        let finding = match result {
            Ok(fee) => {
                let mut explanation = "All funding UTXOs are present. The transaction pays an absolute fee of ".to_owned();
                explanation.append(decimal_string(fee.fee_sat as u128).as_str());
                explanation.append(" sat.");
                let mut actual = "input_total_sat=".to_owned();
                actual.append(decimal_string(fee.input_total_sat as u128).as_str());
                actual.append(" output_total_sat=");
                actual.append(decimal_string(fee.output_total_sat as u128).as_str());
                actual.append(" fee_sat=");
                actual.append(decimal_string(fee.fee_sat as u128).as_str());
                Finding {
                    code: FindingCode::Pg201,
                    severity: Severity::Info,
                    title: "Absolute fee calculated".to_owned(),
                    explanation,
                    evidence: Evidence::global("absolute_fee", actual.as_str()),
                    suggested_action: "Compare the fee with your declared ceiling and expected transaction size before signing.".to_owned(),
                }
            },
            Err(error) => {
                let message = error.message();
                match error {
                    FeeCalculationError::OutputsExceedInputs { .. } => {
                        let mut explanation = "Absolute fee accounting failed because ".to_owned();
                        explanation.append(message.as_str());
                        explanation.append(".");
                        Finding {
                            code: FindingCode::Pg201,
                            severity: Severity::Critical,
                            title: "Invalid transaction value balance".to_owned(),
                            explanation,
                            evidence: Evidence::global("absolute_fee", message.as_str()),
                            suggested_action: "Do not sign; ask the PSBT creator to correct the transaction inputs and outputs.".to_owned(),
                        }
                    },
                    _ => {
                        let mut explanation = "The absolute fee could not be calculated because ".to_owned();
                        explanation.append(message.as_str());
                        explanation.append(".");
                        Finding {
                            code: FindingCode::Pg201,
                            severity: Severity::Warning,
                            title: "Absolute fee unavailable".to_owned(),
                            explanation,
                            evidence: Evidence::global("absolute_fee", message.as_str()),
                            suggested_action: "Require complete, matching funding UTXO data before relying on fee verification.".to_owned(),
                        }
                    },
                }
            },
        };
        let mut findings: Vec<Finding> = Vec::new();
        findings.push(finding);
        assert(crate::model::findings_view(findings@) =~= seq![finding@]);
        findings
    }
}

} // verus!
