//! PG302: each declared recipient must receive its declared amount, within
//! its tolerance, summed over every output that pays it.

use vstd::prelude::*;

use crate::facts::{PsbtFacts, TxOutputFacts};
use crate::intent::{IntentView, RecipientIntent, RecipientView};
use crate::model::{AnalysisContext, Evidence, Finding, FindingCode, FindingView, Severity};
use crate::rules;
use crate::rules::AnalysisRule;
use crate::text::{bytes_equal, decimal_string};

verus! {

/// PG302: compare the aggregate amount paid to each recipient with its
/// declared amount and tolerance.
pub struct RecipientAmountRule;

/// Index of the first of the first `n` outputs that carries `script`.
pub open spec fn first_paying(outputs: Seq<TxOutputFacts>, script: Seq<u8>, n: nat) -> Option<usize>
    decreases n,
{
    if n == 0 {
        None
    } else {
        match first_paying(outputs, script, (n - 1) as nat) {
            Some(j) => Some(j),
            None => if outputs[n - 1].script_pubkey@ == script {
                Some((n - 1) as usize)
            } else {
                None
            },
        }
    }
}

/// Checked sum of the values of the first `n` outputs that carry `script`;
/// `None` once the sum exceeds 64 bits.
pub open spec fn paid_total(outputs: Seq<TxOutputFacts>, script: Seq<u8>, n: nat) -> Option<u64>
    decreases n,
{
    if n == 0 {
        Some(0u64)
    } else {
        match paid_total(outputs, script, (n - 1) as nat) {
            None => None,
            Some(t) => if outputs[n - 1].script_pubkey@ == script {
                if t + outputs[n - 1].value_sat > u64::MAX {
                    None
                } else {
                    Some((t + outputs[n - 1].value_sat) as u64)
                }
            } else {
                Some(t)
            },
        }
    }
}

/// `|a - b|`.
pub open spec fn abs_diff(a: u64, b: u64) -> u64 {
    if a >= b {
        (a - b) as u64
    } else {
        (b - a) as u64
    }
}

/// The PG302 finding when the amounts paid to a recipient overflow.
pub open spec fn amount_overflow_finding(first: usize, address: Seq<char>) -> FindingView {
    FindingView {
        code: FindingCode::Pg302,
        severity: Severity::Critical,
        title: "Recipient amount overflow"@,
        explanation: "Amounts paid to "@ + address + " could not be summed without overflow."@,
        evidence: crate::model::output_evidence(
            first,
            "recipient_amount"@,
            "aggregate amount overflow"@,
        ),
        suggested_action: "Do not sign; treat the transaction as malformed."@,
    }
}

/// The PG302 finding when a recipient receives `actual` in total.
pub open spec fn amount_mismatch_finding(first: usize, r: RecipientView, actual: u64) -> FindingView {
    FindingView {
        code: FindingCode::Pg302,
        severity: Severity::Violation,
        title: "Recipient amount mismatch"@,
        explanation: "Recipient "@ + r.address + " receives "@ + crate::text::decimal(actual as nat)
            + " sat in total; the declared amount is "@ + crate::text::decimal(
            r.amount_sat as nat,
        ) + " sat with "@ + crate::text::decimal(r.amount_tolerance_sat as nat)
            + " sat tolerance."@,
        evidence: crate::model::output_evidence(
            first,
            "recipient_amount"@,
            "address="@ + r.address + " expected_sat="@ + crate::text::decimal(
                r.amount_sat as nat,
            ) + " actual_sat="@ + crate::text::decimal(actual as nat) + " tolerance_sat="@
                + crate::text::decimal(r.amount_tolerance_sat as nat),
        ),
        suggested_action: "Do not sign until the amount matches the independently confirmed payment intent."@,
    }
}

/// The finding a recipient gives: none when no output pays it (PG301 covers
/// that) or when the total is within tolerance.
pub open spec fn recipient_amount_check(outputs: Seq<TxOutputFacts>) -> spec_fn(
    int,
    RecipientView,
) -> Option<FindingView> {
    |i: int, r: RecipientView|
        match first_paying(outputs, r.script_pubkey, outputs.len() as nat) {
            None => None,
            Some(first) => match paid_total(outputs, r.script_pubkey, outputs.len() as nat) {
                None => Some(amount_overflow_finding(first, r.address)),
                Some(actual) => if abs_diff(actual, r.amount_sat) > r.amount_tolerance_sat {
                    Some(amount_mismatch_finding(first, r, actual))
                } else {
                    None
                },
            },
        }
}

/// All PG302 findings, in recipient order; none without an intent.
pub open spec fn recipient_amount_findings(facts: PsbtFacts, intent: Option<IntentView>) -> Seq<
    FindingView,
> {
    match intent {
        None => seq![],
        Some(i) => rules::collect_findings(i.recipients, recipient_amount_check(facts.tx_outputs@)),
    }
}

/// The first paying output and the checked total paid to `script`.
fn payments_to(outputs: &[TxOutputFacts], script: &[u8]) -> (r: (Option<usize>, Option<u64>))
    ensures
        r.0 == first_paying(outputs@, script@, outputs.len() as nat),
        r.1 == paid_total(outputs@, script@, outputs.len() as nat),
{
    let mut first: Option<usize> = None;
    let mut total: Option<u64> = Some(0);
    let mut j: usize = 0;
    while j < outputs.len()
        invariant
            j <= outputs.len(),
            first == first_paying(outputs@, script@, j as nat),
            total == paid_total(outputs@, script@, j as nat),
        decreases outputs.len() - j,
    {
        if bytes_equal(outputs[j].script_pubkey.as_slice(), script) {
            if first.is_none() {
                first = Some(j);
            }
            total = match total {
                Some(t) => t.checked_add(outputs[j].value_sat),
                None => None,
            };
        }
        j = j + 1;
    }
    (first, total)
}

impl AnalysisRule for RecipientAmountRule {
    fn code(&self) -> (c: FindingCode)
        ensures
            c == FindingCode::Pg302,
    {
        FindingCode::Pg302
    }

    fn name(&self) -> (r: &'static str)
        ensures
            r@ == "Recipient amount"@,
    {
        "Recipient amount"
    }

    fn evaluate(&self, ctx: &AnalysisContext) -> (r: Vec<Finding>)
        ensures
            crate::model::findings_view(r@) == recipient_amount_findings(
                ctx.facts(),
                ctx.intent_view(),
            ),
    {
        let mut findings: Vec<Finding> = Vec::new();
        assert(crate::model::findings_view(findings@) =~= Seq::<FindingView>::empty());
        let intent = match ctx.intent() {
            Some(i) => i,
            None => {
                return findings;
            },
        };
        let outputs = ctx.psbt().tx_outputs.as_slice();
        let recipients = intent.recipients();
        let ghost rv = recipients@.map_values(|x: RecipientIntent| x@);
        let ghost check = recipient_amount_check(outputs@);
        let mut i: usize = 0;
        while i < recipients.len()
            invariant
                i <= recipients.len(),
                rv == recipients@.map_values(|x: RecipientIntent| x@),
                check == recipient_amount_check(outputs@),
                crate::model::findings_view(findings@) == rules::collect_findings(
                    rv.take(i as int),
                    check,
                ),
            decreases recipients.len() - i,
        {
            proof {
                rules::lemma_collect_findings_step(rv, check, i as int);
            }
            let recipient = &recipients[i];
            let (first, total) = payments_to(outputs, recipient.script_pubkey());
            if let Some(first) = first {
                match total {
                    None => {
                        let mut explanation = "Amounts paid to ".to_owned();
                        explanation.append(recipient.address());
                        explanation.append(" could not be summed without overflow.");
                        let finding = Finding {
                            code: FindingCode::Pg302,
                            severity: Severity::Critical,
                            title: "Recipient amount overflow".to_owned(),
                            explanation,
                            evidence: Evidence::output(
                                first,
                                "recipient_amount",
                                "aggregate amount overflow",
                            ),
                            suggested_action: "Do not sign; treat the transaction as malformed.".to_owned(),
                        };
                        proof {
                            rules::lemma_findings_view_push(findings@, finding);
                        }
                        findings.push(finding);
                    },
                    Some(actual) => {
                        let expected = recipient.amount_sat();
                        let tolerance = recipient.amount_tolerance_sat();
                        let diff = if actual >= expected {
                            actual - expected
                        } else {
                            expected - actual
                        };
                        if diff > tolerance {
                            let actual_text = decimal_string(actual as u128);
                            let expected_text = decimal_string(expected as u128);
                            let tolerance_text = decimal_string(tolerance as u128);
                            let mut explanation = "Recipient ".to_owned();
                            explanation.append(recipient.address());
                            explanation.append(" receives ");
                            explanation.append(actual_text.as_str());
                            explanation.append(" sat in total; the declared amount is ");
                            explanation.append(expected_text.as_str());
                            explanation.append(" sat with ");
                            explanation.append(tolerance_text.as_str());
                            explanation.append(" sat tolerance.");
                            let mut detail = "address=".to_owned();
                            detail.append(recipient.address());
                            detail.append(" expected_sat=");
                            detail.append(expected_text.as_str());
                            detail.append(" actual_sat=");
                            detail.append(actual_text.as_str());
                            detail.append(" tolerance_sat=");
                            detail.append(tolerance_text.as_str());
                            let finding = Finding {
                                code: FindingCode::Pg302,
                                severity: Severity::Violation,
                                title: "Recipient amount mismatch".to_owned(),
                                explanation,
                                evidence: Evidence::output(first, "recipient_amount", detail.as_str()),
                                suggested_action: "Do not sign until the amount matches the independently confirmed payment intent.".to_owned(),
                            };
                            proof {
                                rules::lemma_findings_view_push(findings@, finding);
                            }
                            findings.push(finding);
                        }
                    },
                }
            }
            i = i + 1;
        }
        proof {
            rules::lemma_collect_findings_all(rv, check);
        }
        findings
    }
}

} // verus!
