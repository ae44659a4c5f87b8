//! PG304: the absolute fee must stay within the declared ceiling.

use vstd::prelude::*;

use crate::facts::PsbtFacts;
use crate::intent::IntentView;
use crate::model::{AnalysisContext, Evidence, Finding, FindingCode, FindingView, Severity};
use crate::rules::absolute_fee::{
    absolute_fee_spec, calculate_absolute_fee, fee_error_text, AbsoluteFee, FeeCalculationError,
};
use crate::rules::AnalysisRule;
use crate::text::decimal_string;

verus! {

/// PG304: enforce the declared maximum absolute fee.
pub struct MaximumFeeRule;

/// The PG304 finding when the fee exceeds the ceiling `max`.
pub open spec fn fee_exceeded_finding(fee: AbsoluteFee, max: u64) -> FindingView {
    FindingView {
        code: FindingCode::Pg304,
        severity: Severity::Violation,
        title: "Maximum absolute fee exceeded"@,
        explanation: "The transaction fee is "@ + crate::text::decimal(fee.fee_sat as nat)
            + " sat, exceeding the declared maximum of "@ + crate::text::decimal(max as nat)
            + " sat."@,
        evidence: crate::model::global_evidence(
            "max_absolute_fee"@,
            "fee_sat="@ + crate::text::decimal(fee.fee_sat as nat) + " max_absolute_fee_sat="@
                + crate::text::decimal(max as nat),
        ),
        suggested_action: "Do not sign until the fee is reduced or you independently update the intent policy."@,
    }
}

/// The PG304 finding when the fee cannot be calculated, so the ceiling `max`
/// cannot be enforced.
pub open spec fn fee_unverifiable_finding(e: FeeCalculationError, max: u64) -> FindingView {
    FindingView {
        code: FindingCode::Pg304,
        severity: Severity::Violation,
        title: "Maximum absolute fee could not be verified"@,
        explanation: "The declared fee ceiling of "@ + crate::text::decimal(max as nat)
            + " sat could not be enforced because "@ + fee_error_text(e) + "."@,
        evidence: crate::model::global_evidence(
            "max_absolute_fee"@,
            "max_absolute_fee_sat="@ + crate::text::decimal(max as nat) + "; unavailable: "@
                + fee_error_text(e),
        ),
        suggested_action: "Do not sign until complete, matching UTXO data makes fee verification possible."@,
    }
}

/// All PG304 findings: none without an intent or when the fee is within the
/// ceiling; otherwise exactly one violation.
pub open spec fn maximum_fee_findings(facts: PsbtFacts, intent: Option<IntentView>) -> Seq<
    FindingView,
> {
    match intent {
        None => seq![],
        Some(i) => match absolute_fee_spec(facts) {
            Ok(fee) => if fee.fee_sat <= i.max_absolute_fee_sat {
                seq![]
            } else {
                seq![fee_exceeded_finding(fee, i.max_absolute_fee_sat)]
            },
            Err(e) => seq![fee_unverifiable_finding(e, i.max_absolute_fee_sat)],
        },
    }
}

impl AnalysisRule for MaximumFeeRule {
    fn code(&self) -> (c: FindingCode)
        ensures
            c == FindingCode::Pg304,
    {
        FindingCode::Pg304
    }

    fn name(&self) -> (r: &'static str)
        ensures
            r@ == "Maximum absolute fee"@,
    {
        "Maximum absolute fee"
    }

    fn evaluate(&self, ctx: &AnalysisContext) -> (r: Vec<Finding>)
        ensures
            crate::model::findings_view(r@) == maximum_fee_findings(ctx.facts(), ctx.intent_view()),
    {
        let mut findings: Vec<Finding> = Vec::new();
        let intent = match ctx.intent() {
            Some(i) => i,
            None => {
                assert(crate::model::findings_view(findings@) =~= Seq::<FindingView>::empty());
                return findings;
            },
        };
        let maximum_sat = intent.fee_policy().max_absolute_fee_sat();
        let max_text = decimal_string(maximum_sat as u128);
        match calculate_absolute_fee(ctx) {
            Ok(fee) => {
                if fee.fee_sat <= maximum_sat {
                    assert(crate::model::findings_view(findings@) =~= Seq::<FindingView>::empty());
                    return findings;
                }
                let fee_text = decimal_string(fee.fee_sat as u128);
                let mut explanation = "The transaction fee is ".to_owned();
                explanation.append(fee_text.as_str());
                explanation.append(" sat, exceeding the declared maximum of ");
                explanation.append(max_text.as_str());
                explanation.append(" sat.");
                let mut actual = "fee_sat=".to_owned();
                actual.append(fee_text.as_str());
                actual.append(" max_absolute_fee_sat=");
                actual.append(max_text.as_str());
                findings.push(
                    Finding {
                        code: FindingCode::Pg304,
                        severity: Severity::Violation,
                        title: "Maximum absolute fee exceeded".to_owned(),
                        explanation,
                        evidence: Evidence::global("max_absolute_fee", actual.as_str()),
                        suggested_action: "Do not sign until the fee is reduced or you independently update the intent policy.".to_owned(),
                    },
                );
            },
            Err(error) => {
                let message = error.message();
                let mut explanation = "The declared fee ceiling of ".to_owned();
                explanation.append(max_text.as_str());
                explanation.append(" sat could not be enforced because ");
                explanation.append(message.as_str());
                explanation.append(".");
                let mut actual = "max_absolute_fee_sat=".to_owned();
                actual.append(max_text.as_str());
                actual.append("; unavailable: ");
                actual.append(message.as_str());
                findings.push(
                    Finding {
                        code: FindingCode::Pg304,
                        severity: Severity::Violation,
                        title: "Maximum absolute fee could not be verified".to_owned(),
                        explanation,
                        evidence: Evidence::global("max_absolute_fee", actual.as_str()),
                        suggested_action: "Do not sign until complete, matching UTXO data makes fee verification possible.".to_owned(),
                    },
                );
            },
        }
        assert(crate::model::findings_view(findings@) =~= seq![findings@[0]@]);
        findings
    }
}

} // verus!
