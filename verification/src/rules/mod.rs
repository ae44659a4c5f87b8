//! The rule engine.
//!
//! Each rule is a pure read-only check from an [`AnalysisContext`] to zero or
//! more [`Finding`] values, emitted in PSBT index order.

use vstd::prelude::*;

use crate::model::{AnalysisContext, Finding, FindingCode, FindingView};
use crate::model;

pub mod absolute_fee;
pub mod input_status;
pub mod max_fee;
pub mod missing_utxo;
pub mod proprietary_fields;
pub mod recipient_address;
pub mod recipient_amount;
pub mod sighash;
pub mod undeclared_output;
pub mod unknown_fields;

pub use absolute_fee::AbsoluteFeeRule;
pub use input_status::InputStatusRule;
pub use max_fee::MaximumFeeRule;
pub use missing_utxo::MissingUtxoRule;
pub use proprietary_fields::ProprietaryFieldsRule;
pub use recipient_address::RecipientAddressRule;
pub use recipient_amount::RecipientAmountRule;
pub use sighash::SighashRule;
pub use undeclared_output::UndeclaredOutputRule;
pub use unknown_fields::UnknownFieldsRule;

verus! {

/// Findings produced by `f` for each item, in item order; `f` receives the
/// item's index and returns the finding, if any, that the item gives.
pub open spec fn collect_findings<T>(
    items: Seq<T>,
    f: spec_fn(int, T) -> Option<FindingView>,
) -> Seq<FindingView>
    decreases items.len(),
{
    if items.len() == 0 {
        seq![]
    } else {
        let prev = collect_findings(items.drop_last(), f);
        match f(items.len() - 1, items.last()) {
            Some(x) => prev.push(x),
            None => prev,
        }
    }
}

/// Extending the scanned prefix by one item appends that item's finding, if any.
pub proof fn lemma_collect_findings_step<T>(
    items: Seq<T>,
    f: spec_fn(int, T) -> Option<FindingView>,
    i: int,
)
    requires
        0 <= i < items.len(),
    ensures
        collect_findings(items.take(i + 1), f) == match f(i, items[i]) {
            Some(x) => collect_findings(items.take(i), f).push(x),
            None => collect_findings(items.take(i), f),
        },
{
    assert(items.take(i + 1).drop_last() =~= items.take(i));
    assert(items.take(i + 1).last() == items[i]);
}

/// Scanning every item gives the findings of the whole sequence.
pub proof fn lemma_collect_findings_all<T>(items: Seq<T>, f: spec_fn(int, T) -> Option<FindingView>)
    ensures
        collect_findings(items.take(items.len() as int), f) == collect_findings(items, f),
{
    assert(items.take(items.len() as int) =~= items);
}

/// Appending a finding appends its view.
pub proof fn lemma_findings_view_push(s: Seq<Finding>, x: Finding)
    ensures
        crate::model::findings_view(s.push(x)) == crate::model::findings_view(s).push(x@),
{
    assert(crate::model::findings_view(s.push(x)) =~= crate::model::findings_view(s).push(x@));
}

/// One analysis rule.
pub trait AnalysisRule {
    /// Stable machine identifier for the rule.
    fn code(&self) -> FindingCode;

    /// Human-readable rule name.
    fn name(&self) -> &'static str;

    /// Evaluate the rule.
    fn evaluate(&self, ctx: &AnalysisContext) -> Vec<Finding>;
}

/// Evidence detail for a count of map entries: `"<n> field(s)"`.
pub open spec fn field_count_text(n: usize) -> Seq<char> {
    crate::text::decimal(n as nat) + " field(s)"@
}

/// Render `"<n> field(s)"`.
pub fn field_count_string(n: usize) -> (s: String)
    ensures
        s@ == field_count_text(n),
{
    let mut s = crate::text::decimal_string(n as u128);
    s.append(" field(s)");
    s
}

/// The rules of the default registries, by name.
#[derive(Clone, Copy, Debug, PartialEq, Eq, Structural, Hash)]
pub enum Rule {
    /// PG101.
    MissingUtxo,
    /// PG102.
    UnknownFields,
    /// PG103.
    ProprietaryFields,
    /// PG104.
    Sighash,
    /// PG105.
    InputStatus,
    /// PG201.
    AbsoluteFee,
    /// PG301.
    RecipientAddress,
    /// PG302.
    RecipientAmount,
    /// PG303.
    UndeclaredOutput,
    /// PG304.
    MaximumFee,
}

/// The finding code a rule emits.
pub open spec fn rule_code(r: Rule) -> FindingCode {
    match r {
        Rule::MissingUtxo => FindingCode::Pg101,
        Rule::UnknownFields => FindingCode::Pg102,
        Rule::ProprietaryFields => FindingCode::Pg103,
        Rule::Sighash => FindingCode::Pg104,
        Rule::InputStatus => FindingCode::Pg105,
        Rule::AbsoluteFee => FindingCode::Pg201,
        Rule::RecipientAddress => FindingCode::Pg301,
        Rule::RecipientAmount => FindingCode::Pg302,
        Rule::UndeclaredOutput => FindingCode::Pg303,
        Rule::MaximumFee => FindingCode::Pg304,
    }
}

/// The human-readable name of a rule.
pub open spec fn rule_name(r: Rule) -> Seq<char> {
    match r {
        Rule::MissingUtxo => "Missing UTXO information"@,
        Rule::UnknownFields => "Unknown global/input/output fields"@,
        Rule::ProprietaryFields => "Proprietary global/input/output fields"@,
        Rule::Sighash => "Invalid or non-standard sighash information"@,
        Rule::InputStatus => "Input finalization / partial-signature status"@,
        Rule::AbsoluteFee => "Absolute fee calculation"@,
        Rule::RecipientAddress => "Declared recipient address"@,
        Rule::RecipientAmount => "Recipient amount"@,
        Rule::UndeclaredOutput => "Undeclared output"@,
        Rule::MaximumFee => "Maximum absolute fee"@,
    }
}

/// The findings a rule emits for a context, in emission order.
pub open spec fn rule_findings(r: Rule, ctx: AnalysisContext) -> Seq<FindingView> {
    match r {
        Rule::MissingUtxo => missing_utxo::missing_utxo_findings(ctx.facts()),
        Rule::UnknownFields => unknown_fields::unknown_fields_findings(ctx.facts()),
        Rule::ProprietaryFields => proprietary_fields::proprietary_fields_findings(ctx.facts()),
        Rule::Sighash => sighash::sighash_findings(ctx.facts()),
        Rule::InputStatus => input_status::input_status_findings(ctx.facts()),
        Rule::AbsoluteFee => absolute_fee::absolute_fee_findings(ctx.facts()),
        Rule::RecipientAddress => recipient_address::recipient_address_findings(
            ctx.facts(),
            ctx.intent_view(),
        ),
        Rule::RecipientAmount => recipient_amount::recipient_amount_findings(
            ctx.facts(),
            ctx.intent_view(),
        ),
        Rule::UndeclaredOutput => undeclared_output::undeclared_output_findings(
            ctx.facts(),
            ctx.intent_view(),
        ),
        Rule::MaximumFee => max_fee::maximum_fee_findings(ctx.facts(), ctx.intent_view()),
    }
}

impl AnalysisRule for Rule {
    fn code(&self) -> (c: FindingCode)
        ensures
            c == rule_code(*self),
    {
        match self {
            Rule::MissingUtxo => MissingUtxoRule.code(),
            Rule::UnknownFields => UnknownFieldsRule.code(),
            Rule::ProprietaryFields => ProprietaryFieldsRule.code(),
            Rule::Sighash => SighashRule.code(),
            Rule::InputStatus => InputStatusRule.code(),
            Rule::AbsoluteFee => AbsoluteFeeRule.code(),
            Rule::RecipientAddress => RecipientAddressRule.code(),
            Rule::RecipientAmount => RecipientAmountRule.code(),
            Rule::UndeclaredOutput => UndeclaredOutputRule.code(),
            Rule::MaximumFee => MaximumFeeRule.code(),
        }
    }

    fn name(&self) -> (r: &'static str)
        ensures
            r@ == rule_name(*self),
    {
        match self {
            Rule::MissingUtxo => MissingUtxoRule.name(),
            Rule::UnknownFields => UnknownFieldsRule.name(),
            Rule::ProprietaryFields => ProprietaryFieldsRule.name(),
            Rule::Sighash => SighashRule.name(),
            Rule::InputStatus => InputStatusRule.name(),
            Rule::AbsoluteFee => AbsoluteFeeRule.name(),
            Rule::RecipientAddress => RecipientAddressRule.name(),
            Rule::RecipientAmount => RecipientAmountRule.name(),
            Rule::UndeclaredOutput => UndeclaredOutputRule.name(),
            Rule::MaximumFee => MaximumFeeRule.name(),
        }
    }

    fn evaluate(&self, ctx: &AnalysisContext) -> (r: Vec<Finding>)
        ensures
            model::findings_view(r@) == rule_findings(*self, *ctx),
    {
        match self {
            Rule::MissingUtxo => MissingUtxoRule.evaluate(ctx),
            Rule::UnknownFields => UnknownFieldsRule.evaluate(ctx),
            Rule::ProprietaryFields => ProprietaryFieldsRule.evaluate(ctx),
            Rule::Sighash => SighashRule.evaluate(ctx),
            Rule::InputStatus => InputStatusRule.evaluate(ctx),
            Rule::AbsoluteFee => AbsoluteFeeRule.evaluate(ctx),
            Rule::RecipientAddress => RecipientAddressRule.evaluate(ctx),
            Rule::RecipientAmount => RecipientAmountRule.evaluate(ctx),
            Rule::UndeclaredOutput => UndeclaredOutputRule.evaluate(ctx),
            Rule::MaximumFee => MaximumFeeRule.evaluate(ctx),
        }
    }
}

/// The structural rules PG101-PG105, in catalogue order.
pub open spec fn structural_rules() -> Seq<Rule> {
    seq![
        Rule::MissingUtxo,
        Rule::UnknownFields,
        Rule::ProprietaryFields,
        Rule::Sighash,
        Rule::InputStatus,
    ]
}

/// The rules that verification adds to the structural ones: PG201 and
/// PG301-PG304, in catalogue order.
pub open spec fn intent_rules() -> Seq<Rule> {
    seq![
        Rule::AbsoluteFee,
        Rule::RecipientAddress,
        Rule::RecipientAmount,
        Rule::UndeclaredOutput,
        Rule::MaximumFee,
    ]
}

/// Structural PSBT rules that do not require an intent manifest.
pub fn structural_registry() -> (r: Vec<Rule>)
    ensures
        r@ == structural_rules(),
{
    let r = vec![
        Rule::MissingUtxo,
        Rule::UnknownFields,
        Rule::ProprietaryFields,
        Rule::Sighash,
        Rule::InputStatus,
    ];
    assert(r@ =~= structural_rules());
    r
}

/// Structural and intent-aware rules in stable catalogue order.
pub fn verification_registry() -> (r: Vec<Rule>)
    ensures
        r@ == structural_rules() + intent_rules(),
{
    let mut r = structural_registry();
    r.push(Rule::AbsoluteFee);
    r.push(Rule::RecipientAddress);
    r.push(Rule::RecipientAmount);
    r.push(Rule::UndeclaredOutput);
    r.push(Rule::MaximumFee);
    assert(r@ =~= structural_rules() + intent_rules());
    r
}

} // verus!
