//! Properties that span several functions of the library, stated over the
//! specifications that the functions' own contracts use, and proved.

use vstd::prelude::*;

use crate::facts::{InputFacts, PsbtFacts, TxInputFacts, TxOutputFacts};
use crate::intent::{IntentView, RecipientView};
use crate::model::{AnalysisContext, FindingCode, FindingView, Severity};
use crate::report;
use crate::rules;
use crate::rules::absolute_fee;
use crate::rules::{
    input_status, max_fee, missing_utxo, proprietary_fields, recipient_address, recipient_amount,
    sighash, undeclared_output, unknown_fields, Rule,
};

verus! {

/// Every finding of `collect_findings` satisfies `p` when every finding `f`
/// can return does.
proof fn lemma_collect_findings_all_satisfy<T>(
    items: Seq<T>,
    f: spec_fn(int, T) -> Option<FindingView>,
    p: spec_fn(FindingView) -> bool,
)
    requires
        forall|i: int, x: T| #[trigger] f(i, x) matches Some(v) ==> p(v),
    ensures
        forall|k: int|
            0 <= k < rules::collect_findings(items, f).len() ==> p(
                #[trigger] rules::collect_findings(items, f)[k],
            ),
    decreases items.len(),
{
    if items.len() > 0 {
        lemma_collect_findings_all_satisfy(items.drop_last(), f, p);
        let prev = rules::collect_findings(items.drop_last(), f);
        let all = rules::collect_findings(items, f);
        let last = f(items.len() - 1, items.last());
        assert forall|k: int| 0 <= k < all.len() implies p(#[trigger] all[k]) by {
            if k < prev.len() {
                assert(all[k] == prev[k]);
            } else {
                assert(last matches Some(v) && all[k] == v);
            }
        }
    }
}

/// Law: every finding a rule emits carries that rule's own finding code.
pub proof fn findings_carry_rule_code(r: Rule, ctx: AnalysisContext)
    ensures
        forall|k: int|
            0 <= k < rules::rule_findings(r, ctx).len() ==> (#[trigger] rules::rule_findings(
                r,
                ctx,
            )[k]).code == rules::rule_code(r),
{
    let c = rules::rule_code(r);
    let p = |v: FindingView| v.code == c;
    let facts = ctx.facts();
    match r {
        Rule::MissingUtxo => {
            lemma_collect_findings_all_satisfy(facts.inputs@, missing_utxo::missing_utxo_check(), p);
        },
        Rule::UnknownFields => {
            lemma_collect_findings_all_satisfy(
                facts.inputs@,
                unknown_fields::unknown_fields_input_check(),
                p,
            );
            lemma_collect_findings_all_satisfy(
                facts.outputs@,
                unknown_fields::unknown_fields_output_check(),
                p,
            );
        },
        Rule::ProprietaryFields => {
            lemma_collect_findings_all_satisfy(
                facts.inputs@,
                proprietary_fields::proprietary_fields_input_check(),
                p,
            );
            lemma_collect_findings_all_satisfy(
                facts.outputs@,
                proprietary_fields::proprietary_fields_output_check(),
                p,
            );
        },
        Rule::Sighash => {
            lemma_collect_findings_all_satisfy(facts.inputs@, sighash::sighash_check(), p);
        },
        Rule::InputStatus => {
            lemma_collect_findings_all_satisfy(facts.inputs@, input_status::input_status_check(), p);
        },
        Rule::AbsoluteFee => {},
        Rule::RecipientAddress => {
            if let Some(i) = ctx.intent_view() {
                lemma_collect_findings_all_satisfy(
                    i.recipients,
                    recipient_address::recipient_address_check(facts.tx_outputs@),
                    p,
                );
            }
        },
        Rule::RecipientAmount => {
            if let Some(i) = ctx.intent_view() {
                lemma_collect_findings_all_satisfy(
                    i.recipients,
                    recipient_amount::recipient_amount_check(facts.tx_outputs@),
                    p,
                );
            }
        },
        Rule::UndeclaredOutput => {
            if let Some(i) = ctx.intent_view() {
                let outputs = facts.tx_outputs@;
                let count = undeclared_output::undeclared_count(
                    outputs,
                    i.recipients,
                    outputs.len() as nat,
                );
                lemma_collect_findings_all_satisfy(
                    outputs,
                    undeclared_output::undeclared_check(
                        i.recipients,
                        count,
                        i.max_change_outputs,
                        i.network,
                    ),
                    p,
                );
            }
        },
        Rule::MaximumFee => {},
    }
}

/// Law: the rules that need an intent emit nothing when none was provided.
pub proof fn intent_rules_are_silent_without_intent(ctx: AnalysisContext)
    requires
        ctx.intent_view() is None,
    ensures
        rules::rule_findings(Rule::RecipientAddress, ctx) == Seq::<FindingView>::empty(),
        rules::rule_findings(Rule::RecipientAmount, ctx) == Seq::<FindingView>::empty(),
        rules::rule_findings(Rule::UndeclaredOutput, ctx) == Seq::<FindingView>::empty(),
        rules::rule_findings(Rule::MaximumFee, ctx) == Seq::<FindingView>::empty(),
{
}

/// Law: running two rule lists one after the other gives the findings of
/// the first list followed by those of the second.
pub proof fn analysis_of_concatenated_rules(ctx: AnalysisContext, a: Seq<Rule>, b: Seq<Rule>)
    ensures
        report::analysis_findings(ctx, a + b) == report::analysis_findings(ctx, a)
            + report::analysis_findings(ctx, b),
    decreases b.len(),
{
    if b.len() == 0 {
        assert(a + b =~= a);
        assert(report::analysis_findings(ctx, a) + report::analysis_findings(ctx, b)
            =~= report::analysis_findings(ctx, a));
    } else {
        assert((a + b).drop_last() =~= a + b.drop_last());
        assert((a + b).last() == b.last());
        analysis_of_concatenated_rules(ctx, a, b.drop_last());
        assert(report::analysis_findings(ctx, a + b) =~= report::analysis_findings(ctx, a)
            + report::analysis_findings(ctx, b));
    }
}

/// Law: verification reports exactly the structural inspection findings
/// first, followed by the findings of PG201 and PG301-PG304.
pub proof fn verification_extends_inspection(ctx: AnalysisContext)
    ensures
        report::analysis_findings(ctx, rules::structural_rules() + rules::intent_rules())
            == report::analysis_findings(ctx, rules::structural_rules())
            + report::analysis_findings(ctx, rules::intent_rules()),
{
    analysis_of_concatenated_rules(ctx, rules::structural_rules(), rules::intent_rules());
}

/// Law: the per-severity counts of a summary add up to its total.
pub proof fn severity_counts_add_up(fs: Seq<FindingView>)
    ensures
        report::severity_count(fs, Severity::Info) + report::severity_count(fs, Severity::Warning)
            + report::severity_count(fs, Severity::Violation) + report::severity_count(
            fs,
            Severity::Critical,
        ) == fs.len(),
    decreases fs.len(),
{
    if fs.len() > 0 {
        severity_counts_add_up(fs.drop_last());
    }
}

/// Law: a report blocks signing exactly when it holds a violation or a
/// critical finding.
pub proof fn blocking_iff_violation_or_critical(fs: Seq<FindingView>)
    ensures
        report::any_blocking(fs) <==> report::severity_count(fs, Severity::Violation)
            + report::severity_count(fs, Severity::Critical) > 0,
    decreases fs.len(),
{
    if fs.len() > 0 {
        let init = fs.drop_last();
        blocking_iff_violation_or_critical(init);
        if report::any_blocking(init) {
            let k = choose|k: int| 0 <= k < init.len() && crate::model::is_blocking_spec(
                #[trigger] init[k].severity,
            );
            assert(fs[k] == init[k]);
        }
        if report::any_blocking(fs) {
            let k = choose|k: int| 0 <= k < fs.len() && crate::model::is_blocking_spec(
                #[trigger] fs[k].severity,
            );
            if k < init.len() {
                assert(init[k] == fs[k]);
            }
        }
        if crate::model::is_blocking_spec(fs.last().severity) {
            assert(crate::model::is_blocking_spec(fs[fs.len() - 1].severity));
        }
    }
}

/// Unchecked total of the first `n` output values.
pub open spec fn exact_output_sum(outputs: Seq<TxOutputFacts>, n: nat) -> nat
    decreases n,
{
    if n == 0 {
        0
    } else {
        exact_output_sum(outputs, (n - 1) as nat) + outputs[n - 1].value_sat as nat
    }
}

/// Unchecked total of the funding values of the first `n` inputs (an input
/// whose value cannot be established counts as zero).
pub open spec fn exact_funding_sum(facts: PsbtFacts, n: nat) -> nat
    decreases n,
{
    if n == 0 {
        0
    } else {
        exact_funding_sum(facts, (n - 1) as nat) + match absolute_fee::funding_value(
            n - 1,
            facts.tx_inputs@[n - 1],
            facts.inputs@[n - 1],
        ) {
            Ok(v) => v as nat,
            Err(_) => 0nat,
        }
    }
}

/// Law: the checked output total overflows exactly when the true total
/// exceeds 64 bits, and otherwise equals the true total.
pub proof fn output_total_is_checked_sum(outputs: Seq<TxOutputFacts>, n: nat)
    requires
        n <= outputs.len(),
    ensures
        absolute_fee::output_total(outputs, n) == if exact_output_sum(outputs, n) > u64::MAX {
            Err(absolute_fee::FeeCalculationError::AmountOverflow)
        } else {
            Ok::<u64, absolute_fee::FeeCalculationError>(exact_output_sum(outputs, n) as u64)
        },
    decreases n,
{
    if n > 0 {
        output_total_is_checked_sum(outputs, (n - 1) as nat);
    }
}

/// Law: when the checked funding total succeeds, every paired input's value
/// is established and the total is their true sum.
pub proof fn funding_total_is_checked_sum(facts: PsbtFacts, n: nat)
    requires
        n <= absolute_fee::paired_inputs(facts),
    ensures
        absolute_fee::funding_total(facts, n) is Ok ==> {
            &&& forall|k: int|
                0 <= k < n ==> (#[trigger] absolute_fee::funding_value(
                    k,
                    facts.tx_inputs@[k],
                    facts.inputs@[k],
                )) is Ok
            &&& absolute_fee::funding_total(facts, n) == Ok::<
                u64,
                absolute_fee::FeeCalculationError,
            >(exact_funding_sum(facts, n) as u64)
            &&& exact_funding_sum(facts, n) <= u64::MAX
        },
    decreases n,
{
    if n > 0 {
        funding_total_is_checked_sum(facts, (n - 1) as nat);
    }
}

/// Law: a calculated absolute fee is the true total of the funding values
/// minus the true total of the output values, and never negative.
pub proof fn fee_is_inputs_minus_outputs(facts: PsbtFacts)
    ensures
        absolute_fee::absolute_fee_spec(facts) matches Ok(fee) ==> {
            &&& fee.input_total_sat == exact_funding_sum(facts, absolute_fee::paired_inputs(facts))
            &&& fee.output_total_sat == exact_output_sum(
                facts.tx_outputs@,
                facts.tx_outputs.len() as nat,
            )
            &&& fee.fee_sat + fee.output_total_sat == fee.input_total_sat
        },
{
    funding_total_is_checked_sum(facts, absolute_fee::paired_inputs(facts));
    output_total_is_checked_sum(facts.tx_outputs@, facts.tx_outputs.len() as nat);
}

/// Law: PG304 is silent exactly when the fee can be calculated and is within
/// the declared ceiling; otherwise it reports exactly one violation, also
/// when the fee cannot be calculated at all.
pub proof fn fee_ceiling_is_enforced(facts: PsbtFacts, intent: IntentView)
    ensures
        max_fee::maximum_fee_findings(facts, Some(intent)).len() == 0 <==> (
        absolute_fee::absolute_fee_spec(facts) matches Ok(fee) && fee.fee_sat
            <= intent.max_absolute_fee_sat),
        max_fee::maximum_fee_findings(facts, Some(intent)).len() != 0 ==> {
            &&& max_fee::maximum_fee_findings(facts, Some(intent)).len() == 1
            &&& max_fee::maximum_fee_findings(facts, Some(intent))[0].severity
                == Severity::Violation
            &&& max_fee::maximum_fee_findings(facts, Some(intent))[0].code == FindingCode::Pg304
        },
{
}

/// The first of the first `n` outputs paying `script` is absent exactly when
/// none of them pays it.
proof fn lemma_first_paying_none(outputs: Seq<TxOutputFacts>, script: Seq<u8>, n: nat)
    requires
        n <= outputs.len(),
    ensures
        recipient_amount::first_paying(outputs, script, n) is None <==> forall|j: int|
            0 <= j < n ==> (#[trigger] outputs[j]).script_pubkey@ != script,
    decreases n,
{
    if n > 0 {
        lemma_first_paying_none(outputs, script, (n - 1) as nat);
    }
}

/// Law: a declared recipient that no output pays gets a PG301 finding and no
/// PG302 finding; a recipient that some output pays gets no PG301 finding.
pub proof fn missing_recipient_is_reported_by_address_rule_only(
    outputs: Seq<TxOutputFacts>,
    r: RecipientView,
    i: int,
)
    ensures
        (recipient_address::recipient_address_check(outputs)(i, r) is Some) <==> !recipient_address::pays_script(
            outputs,
            r.script_pubkey,
        ),
        !recipient_address::pays_script(outputs, r.script_pubkey) ==> recipient_amount::recipient_amount_check(outputs)(i, r) is None,
{
    lemma_first_paying_none(outputs, r.script_pubkey, outputs.len() as nat);
    if !recipient_address::pays_script(outputs, r.script_pubkey) {
        assert forall|j: int| 0 <= j < outputs.len() implies (#[trigger] outputs[j]).script_pubkey@
            != r.script_pubkey by {
            if outputs[j].script_pubkey@ == r.script_pubkey {
                assert(recipient_address::pays_script(outputs, r.script_pubkey));
            }
        }
    }
}

/// Law: a recipient paid in total within its tolerance gets no PG302 finding.
pub proof fn amount_within_tolerance_is_clean(outputs: Seq<TxOutputFacts>, r: RecipientView, i: int)
    requires
        recipient_amount::paid_total(outputs, r.script_pubkey, outputs.len() as nat) matches Some(t)
            && recipient_amount::abs_diff(t, r.amount_sat) <= r.amount_tolerance_sat,
    ensures
        recipient_amount::recipient_amount_check(outputs)(i, r) is None,
{
}

/// The PG303 findings over a prefix of the outputs are as many as the
/// undeclared outputs in it.
proof fn lemma_undeclared_findings_count(
    outputs: Seq<TxOutputFacts>,
    recipients: Seq<RecipientView>,
    count: nat,
    max: usize,
    network: crate::intent::Network,
    n: nat,
)
    requires
        n <= outputs.len(),
    ensures
        rules::collect_findings(
            outputs.take(n as int),
            undeclared_output::undeclared_check(recipients, count, max, network),
        ).len() == undeclared_output::undeclared_count(outputs, recipients, n),
    decreases n,
{
    if n > 0 {
        lemma_undeclared_findings_count(outputs, recipients, count, max, network, (n - 1) as nat);
        rules::lemma_collect_findings_step(
            outputs,
            undeclared_output::undeclared_check(recipients, count, max, network),
            n - 1,
        );
    }
}

/// Law: when the undeclared outputs exceed the change allowance, every one of
/// them is reported; otherwise none is.
pub proof fn every_undeclared_output_is_reported(facts: PsbtFacts, intent: IntentView)
    ensures
        ({
            let outputs = facts.tx_outputs@;
            let count = undeclared_output::undeclared_count(
                outputs,
                intent.recipients,
                outputs.len() as nat,
            );
            &&& count > intent.max_change_outputs ==> undeclared_output::undeclared_output_findings(
                facts,
                Some(intent),
            ).len() == count
            &&& count <= intent.max_change_outputs ==> undeclared_output::undeclared_output_findings(
                facts,
                Some(intent),
            ).len() == 0
        }),
{
    let outputs = facts.tx_outputs@;
    let count = undeclared_output::undeclared_count(outputs, intent.recipients, outputs.len() as nat);
    lemma_undeclared_findings_count(
        outputs,
        intent.recipients,
        count,
        intent.max_change_outputs,
        intent.network,
        outputs.len() as nat,
    );
    assert(outputs.take(outputs.len() as int) =~= outputs);
}

/// ASCII uppercase letters map to lowercase; every other character is kept.
pub open spec fn ascii_lower(c: char) -> char {
    if 'A' <= c && c <= 'Z' {
        ((c as int) + 32) as char
    } else {
        c
    }
}

/// Law: the catalogue text of every finding code parses back to that code,
/// also when written in lowercase or surrounded by white space.
pub proof fn finding_code_text_parses_back(c: FindingCode)
    ensures
        crate::model::parse_code_spec(crate::model::code_text(c)) == Some(c),
        crate::model::parse_code_spec(crate::model::code_text(c).map_values(|x: char| ascii_lower(x)))
            == Some(c),
        crate::model::parse_code_spec(seq![' '] + crate::model::code_text(c) + seq!['\n']) == Some(c),
{
    let t = crate::model::code_text(c);
    let lower = t.map_values(|x: char| ascii_lower(x));
    let padded = seq![' '] + t + seq!['\n'];
    assert(padded.drop_first() =~= t + seq!['\n']);
    assert((t + seq!['\n']).drop_last() =~= t);
    assert(crate::model::trim_start_spec(t) == t);
    assert(crate::model::trim_end_spec(t) == t);
    assert(crate::model::trim_start_spec(lower) == lower);
    assert(crate::model::trim_end_spec(lower) == lower);
    assert(crate::model::trim_start_spec(t + seq!['\n']) == t + seq!['\n']);
    assert(crate::model::trim_spec(padded) == t);
    assert(t.map_values(|x: char| crate::model::ascii_upper(x)) =~= t);
    assert(lower.map_values(|x: char| crate::model::ascii_upper(x)) =~= t);
    assert forall|d: FindingCode| d != c implies crate::model::code_text(d) != t by {
        let u = crate::model::code_text(d);
        assert(u[2] != t[2] || u[3] != t[3] || u[4] != t[4]);
    }
}

/// Equality of two texts ignoring ASCII case, as `str::eq_ignore_ascii_case`
/// compares them.
pub open spec fn eq_ignore_ascii_case(a: Seq<char>, b: Seq<char>) -> bool {
    a.len() == b.len() && forall|i: int| 0 <= i < a.len() ==> #[trigger] ascii_lower(a[i]) == ascii_lower(b[i])
}

/// Law: a text names finding code `c` exactly when, with surrounding white
/// space trimmed, it equals the code's catalogue text ignoring ASCII case.
pub proof fn finding_code_parse_ignores_ascii_case(text: Seq<char>, c: FindingCode)
    ensures
        crate::model::parse_code_spec(text) == Some(c)
            <==> eq_ignore_ascii_case(crate::model::trim_spec(text), crate::model::code_text(c)),
{
    let t = crate::model::trim_spec(text);
    let u = t.map_values(|x: char| crate::model::ascii_upper(x));
    let k = crate::model::code_text(c);
    assert forall|i: int| 0 <= i < t.len() && t.len() == k.len()
        implies (u[i] == k[i] <==> ascii_lower(t[i]) == ascii_lower(k[i])) by {
        assert(k[i] == 'P' || k[i] == 'G' || ('0' <= k[i] && k[i] <= '9'));
    }
    if eq_ignore_ascii_case(t, k) {
        assert forall|i: int| 0 <= i < u.len() implies u[i] == k[i] by {
            assert(ascii_lower(t[i]) == ascii_lower(k[i]));
        }
        assert(u =~= k);
        finding_code_text_parses_back(c);
        assert(crate::model::parse_code_spec(k) == Some(c));
        assert(k.map_values(|x: char| crate::model::ascii_upper(x)) =~= k);
        assert(crate::model::trim_start_spec(k) == k);
        assert(crate::model::trim_end_spec(k) == k);
    }
    if crate::model::parse_code_spec(text) == Some(c) {
        assert(u =~= k);
        assert forall|i: int| 0 <= i < t.len() implies ascii_lower(t[i]) == ascii_lower(k[i]) by {
            assert(u[i] == k[i]);
        }
    }
}

/// The finding that item `i` gives is among the collected findings.
proof fn lemma_collect_findings_contains<T>(
    items: Seq<T>,
    f: spec_fn(int, T) -> Option<FindingView>,
    i: int,
)
    requires
        0 <= i < items.len(),
        f(i, items[i]) is Some,
    ensures
        rules::collect_findings(items, f).contains(f(i, items[i])->0),
    decreases items.len(),
{
    let prev = rules::collect_findings(items.drop_last(), f);
    let v = f(i, items[i])->0;
    if i == items.len() - 1 {
        assert(rules::collect_findings(items, f) == prev.push(v));
        assert(prev.push(v)[prev.len() as int] == v);
    } else {
        assert(items.drop_last()[i] == items[i]);
        lemma_collect_findings_contains(items.drop_last(), f, i);
        let k = choose|k: int| 0 <= k < prev.len() && prev[k] == v;
        let all = rules::collect_findings(items, f);
        assert(all[k] == prev[k]);
    }
}

/// Law: every input that carries neither `witness_utxo` nor
/// `non_witness_utxo` is reported by PG101.
pub proof fn every_input_without_utxo_is_reported(facts: PsbtFacts, i: int)
    requires
        0 <= i < facts.inputs.len(),
        facts.inputs@[i].witness_utxo is None,
        facts.inputs@[i].non_witness_utxo is None,
    ensures
        missing_utxo::missing_utxo_findings(facts).contains(
            missing_utxo::missing_utxo_finding(i as usize),
        ),
{
    lemma_collect_findings_contains(facts.inputs@, missing_utxo::missing_utxo_check(), i);
}

/// Law: PG104 findings are always critical, and every input that declares a
/// sighash flag other than `SIGHASH_DEFAULT` or `SIGHASH_ALL` is reported.
pub proof fn non_default_sighash_is_critical(facts: PsbtFacts, i: int)
    requires
        0 <= i < facts.inputs.len(),
    ensures
        forall|k: int|
            0 <= k < sighash::sighash_findings(facts).len() ==> (#[trigger] sighash::sighash_findings(
                facts,
            )[k]).severity == Severity::Critical,
        facts.inputs@[i].signing.sighash_type matches Some(raw) ==> (
        !sighash::is_safe_default_sighash_spec(raw) ==> sighash::sighash_findings(facts).contains(
            sighash::sighash_finding(i as usize, raw),
        )),
{
    lemma_collect_findings_all_satisfy(
        facts.inputs@,
        sighash::sighash_check(),
        |v: FindingView| v.severity == Severity::Critical,
    );
    if let Some(raw) = facts.inputs@[i].signing.sighash_type {
        if !sighash::is_safe_default_sighash_spec(raw) {
            lemma_collect_findings_contains(facts.inputs@, sighash::sighash_check(), i);
        }
    }
}

/// Law: every declared recipient whose script no output carries is reported
/// by PG301.
pub proof fn every_missing_recipient_is_reported(facts: PsbtFacts, intent: IntentView, k: int)
    requires
        0 <= k < intent.recipients.len(),
        !recipient_address::pays_script(facts.tx_outputs@, intent.recipients[k].script_pubkey),
    ensures
        recipient_address::recipient_address_findings(facts, Some(intent)).contains(
            recipient_address::missing_recipient_finding(intent.recipients[k].address),
        ),
{
    lemma_collect_findings_contains(
        intent.recipients,
        recipient_address::recipient_address_check(facts.tx_outputs@),
        k,
    );
}

/// Every collected finding is the finding of some item.
proof fn lemma_collect_findings_from<T>(
    items: Seq<T>,
    f: spec_fn(int, T) -> Option<FindingView>,
    m: int,
)
    requires
        0 <= m < rules::collect_findings(items, f).len(),
    ensures
        exists|i: int|
            0 <= i < items.len() && #[trigger] f(i, items[i]) == Some(
                rules::collect_findings(items, f)[m],
            ),
    decreases items.len(),
{
    let prev = rules::collect_findings(items.drop_last(), f);
    let all = rules::collect_findings(items, f);
    if m < prev.len() {
        lemma_collect_findings_from(items.drop_last(), f, m);
        let i = choose|i: int|
            0 <= i < items.drop_last().len() && #[trigger] f(i, items.drop_last()[i]) == Some(
                prev[m],
            );
        assert(items.drop_last()[i] == items[i]);
        assert(all[m] == prev[m]);
        assert(f(i, items[i]) == Some(all[m]));
    } else {
        let i = items.len() - 1;
        assert(items.last() == items[i]);
        assert(f(i, items[i]) == Some(all[m]));
    }
}

/// Law: PG101 reports input `i` exactly when it carries neither
/// `witness_utxo` nor `non_witness_utxo`; either one alone is enough.
pub proof fn missing_utxo_reports_exactly_inputs_without_utxo(facts: PsbtFacts, i: int)
    requires
        0 <= i < facts.inputs.len(),
    ensures
        (exists|m: int|
            0 <= m < missing_utxo::missing_utxo_findings(facts).len()
                && (#[trigger] missing_utxo::missing_utxo_findings(facts)[m]).evidence.input_index
                == Some(i as usize)) <==> (facts.inputs@[i].witness_utxo is None
            && facts.inputs@[i].non_witness_utxo is None),
{
    let fs = missing_utxo::missing_utxo_findings(facts);
    let f = missing_utxo::missing_utxo_check();
    if facts.inputs@[i].witness_utxo is None && facts.inputs@[i].non_witness_utxo is None {
        lemma_collect_findings_contains(facts.inputs@, f, i);
        let m = choose|m: int| 0 <= m < fs.len() && fs[m] == f(i, facts.inputs@[i])->0;
        assert(fs[m].evidence.input_index == Some(i as usize));
    }
    assert forall|m: int|
        0 <= m < fs.len() && (#[trigger] fs[m]).evidence.input_index == Some(i as usize) implies (
        facts.inputs@[i].witness_utxo is None && facts.inputs@[i].non_witness_utxo is None) by {
        lemma_collect_findings_from(facts.inputs@, f, m);
        let j = choose|j: int| 0 <= j < facts.inputs@.len() && #[trigger] f(j, facts.inputs@[j]) == Some(fs[m]);
        assert(fs[m].evidence.input_index == Some(j as usize));
        assert(j == i);
    }
}

/// Law: PG104 reports input `i` exactly when it declares a sighash flag
/// other than 0 (`SIGHASH_DEFAULT`) and 1 (`SIGHASH_ALL`).
pub proof fn sighash_reports_exactly_flags_other_than_default_and_all(facts: PsbtFacts, i: int)
    requires
        0 <= i < facts.inputs.len(),
    ensures
        (exists|m: int|
            0 <= m < sighash::sighash_findings(facts).len()
                && (#[trigger] sighash::sighash_findings(facts)[m]).evidence.input_index
                == Some(i as usize)) <==> (facts.inputs@[i].signing.sighash_type matches Some(raw)
            && raw != 0 && raw != 1),
{
    let fs = sighash::sighash_findings(facts);
    let f = sighash::sighash_check();
    if let Some(raw) = facts.inputs@[i].signing.sighash_type {
        if raw != 0 && raw != 1 {
            lemma_collect_findings_contains(facts.inputs@, f, i);
            let m = choose|m: int| 0 <= m < fs.len() && fs[m] == f(i, facts.inputs@[i])->0;
            assert(fs[m].evidence.input_index == Some(i as usize));
        }
    }
    assert forall|m: int|
        0 <= m < fs.len() && (#[trigger] fs[m]).evidence.input_index == Some(i as usize) implies (
        facts.inputs@[i].signing.sighash_type matches Some(raw) && raw != 0 && raw != 1) by {
        lemma_collect_findings_from(facts.inputs@, f, m);
        let j = choose|j: int| 0 <= j < facts.inputs@.len() && #[trigger] f(j, facts.inputs@[j]) == Some(fs[m]);
        assert(fs[m].evidence.input_index == Some(j as usize));
        assert(j == i);
    }
}

/// Output `o` pays one of the recipients `rs`, wherever it stands in the list.
pub open spec fn pays_a_recipient(rs: Seq<RecipientView>, o: TxOutputFacts) -> bool {
    exists|k: int| 0 <= k < rs.len() && #[trigger] rs[k].script_pubkey == o.script_pubkey@
}

/// Law: PG303 never reports an output that pays a declared recipient (any
/// recipient, at any position of the list), and when every output pays some
/// declared recipient nothing counts as undeclared and nothing is reported.
pub proof fn outputs_paying_a_recipient_are_never_undeclared(facts: PsbtFacts, intent: IntentView)
    ensures
        forall|m: int|
            0 <= m < undeclared_output::undeclared_output_findings(facts, Some(intent)).len()
                ==> ((#[trigger] undeclared_output::undeclared_output_findings(facts, Some(intent))[m]).evidence.output_index
                matches Some(j) && j < facts.tx_outputs.len() && forall|k: int|
                0 <= k < intent.recipients.len() ==> (#[trigger] intent.recipients[k]).script_pubkey
                    != facts.tx_outputs@[j as int].script_pubkey@),
        (forall|j: int|
            0 <= j < facts.tx_outputs.len() ==> pays_a_recipient(intent.recipients, #[trigger] facts.tx_outputs@[j])) ==> (
        undeclared_output::undeclared_count(
            facts.tx_outputs@,
            intent.recipients,
            facts.tx_outputs.len() as nat,
        ) == 0 && undeclared_output::undeclared_output_findings(facts, Some(intent)).len() == 0),
{
    let outputs = facts.tx_outputs@;
    let rs = intent.recipients;
    let count = undeclared_output::undeclared_count(outputs, rs, outputs.len() as nat);
    let fs = undeclared_output::undeclared_output_findings(facts, Some(intent));
    let f = undeclared_output::undeclared_check(rs, count, intent.max_change_outputs, intent.network);
    if count > intent.max_change_outputs {
        assert forall|m: int| 0 <= m < fs.len() implies ((#[trigger] fs[m]).evidence.output_index matches Some(j)
            && j < outputs.len() && forall|k: int|
            0 <= k < rs.len() ==> (#[trigger] rs[k]).script_pubkey != outputs[j as int].script_pubkey@) by {
            lemma_collect_findings_from(outputs, f, m);
            let j = choose|j: int| 0 <= j < outputs.len() && #[trigger] f(j, outputs[j]) == Some(fs[m]);
            assert(outputs.len() == facts.tx_outputs.len());
            assert(fs[m].evidence.output_index == Some(j as usize));
            assert((j as usize) as int == j);
            assert(!undeclared_output::is_declared(rs, outputs[j].script_pubkey@));
            assert forall|k: int| 0 <= k < rs.len() implies (#[trigger] rs[k]).script_pubkey
                != outputs[j].script_pubkey@ by {
                if rs[k].script_pubkey == outputs[j].script_pubkey@ {
                    assert(undeclared_output::is_declared(rs, outputs[j].script_pubkey@));
                }
            }
        }
    }
    if forall|j: int| 0 <= j < outputs.len() ==> pays_a_recipient(rs, #[trigger] outputs[j]) {
        lemma_all_declared_count_zero(outputs, rs, outputs.len() as nat);
    }
}

/// When each of the first `n` outputs pays a declared recipient, none of
/// them counts as undeclared.
proof fn lemma_all_declared_count_zero(outputs: Seq<TxOutputFacts>, rs: Seq<RecipientView>, n: nat)
    requires
        n <= outputs.len(),
        forall|j: int| 0 <= j < outputs.len() ==> pays_a_recipient(rs, #[trigger] outputs[j]),
    ensures
        undeclared_output::undeclared_count(outputs, rs, n) == 0,
    decreases n,
{
    if n > 0 {
        lemma_all_declared_count_zero(outputs, rs, (n - 1) as nat);
        let j = n - 1;
        assert(0 <= j < outputs.len());
        assert(pays_a_recipient(rs, outputs[j]));
        let k = choose|k: int| 0 <= k < rs.len() && #[trigger] rs[k].script_pubkey == outputs[j].script_pubkey@;
        assert(undeclared_output::is_declared(rs, outputs[j].script_pubkey@));
    }
}

/// Unchecked total of the first `n` outputs that carry `script`.
pub open spec fn exact_paid_sum(outputs: Seq<TxOutputFacts>, script: Seq<u8>, n: nat) -> nat
    decreases n,
{
    if n == 0 {
        0
    } else {
        exact_paid_sum(outputs, script, (n - 1) as nat) + if outputs[n - 1].script_pubkey@ == script {
            outputs[n - 1].value_sat as nat
        } else {
            0nat
        }
    }
}

/// The checked paid total is the true total while it fits in 64 bits.
proof fn lemma_paid_total_exact(outputs: Seq<TxOutputFacts>, script: Seq<u8>, n: nat)
    requires
        n <= outputs.len(),
    ensures
        recipient_amount::paid_total(outputs, script, n) == if exact_paid_sum(outputs, script, n)
            > u64::MAX {
            None::<u64>
        } else {
            Some(exact_paid_sum(outputs, script, n) as u64)
        },
    decreases n,
{
    if n > 0 {
        lemma_paid_total_exact(outputs, script, (n - 1) as nat);
    }
}

/// The first paying output, when there is one, pays `script`.
proof fn lemma_first_paying_some(outputs: Seq<TxOutputFacts>, script: Seq<u8>, n: nat)
    requires
        n <= outputs.len(),
        n <= usize::MAX,
    ensures
        recipient_amount::first_paying(outputs, script, n) matches Some(j) ==> j < n
            && outputs[j as int].script_pubkey@ == script,
    decreases n,
{
    if n > 0 {
        lemma_first_paying_some(outputs, script, (n - 1) as nat);
    }
}

/// Law: PG302 compares the true total paid to a recipient with its declared
/// amount in both directions. A recipient paid more than `amount +
/// tolerance`, or less than `amount - tolerance`, is reported with that
/// total; one paid within the tolerance band gives no finding.
pub proof fn recipient_amount_difference_counts_both_ways(facts: PsbtFacts, intent: IntentView, k: int)
    requires
        0 <= k < intent.recipients.len(),
        exists|j: int|
            0 <= j < facts.tx_outputs.len() && (#[trigger] facts.tx_outputs@[j]).script_pubkey@
                == intent.recipients[k].script_pubkey,
        exact_paid_sum(
            facts.tx_outputs@,
            intent.recipients[k].script_pubkey,
            facts.tx_outputs.len() as nat,
        ) <= u64::MAX,
    ensures
        ({
            let r = intent.recipients[k];
            let t = exact_paid_sum(facts.tx_outputs@, r.script_pubkey, facts.tx_outputs.len() as nat);
            let fs = recipient_amount::recipient_amount_findings(facts, Some(intent));
            &&& (t > r.amount_sat + r.amount_tolerance_sat || t + r.amount_tolerance_sat < r.amount_sat)
                ==> exists|j: int, m: int|
                #![trigger fs[m], facts.tx_outputs@[j]]
                0 <= j < facts.tx_outputs.len() && facts.tx_outputs@[j].script_pubkey@ == r.script_pubkey
                    && 0 <= m < fs.len() && fs[m] == recipient_amount::amount_mismatch_finding(
                    j as usize,
                    r,
                    t as u64,
                )
            &&& !(t > r.amount_sat + r.amount_tolerance_sat || t + r.amount_tolerance_sat
                < r.amount_sat) ==> recipient_amount::recipient_amount_check(facts.tx_outputs@)(k, r)
                is None
        }),
{
    let outputs = facts.tx_outputs@;
    let r = intent.recipients[k];
    let n = outputs.len() as nat;
    let t = exact_paid_sum(outputs, r.script_pubkey, n);
    let fs = recipient_amount::recipient_amount_findings(facts, Some(intent));
    let f = recipient_amount::recipient_amount_check(outputs);
    lemma_paid_total_exact(outputs, r.script_pubkey, n);
    assert(outputs.len() == facts.tx_outputs.len());
    lemma_first_paying_some(outputs, r.script_pubkey, n);
    lemma_first_paying_none(outputs, r.script_pubkey, n);
    let j0 = choose|j: int| 0 <= j < facts.tx_outputs.len() && (#[trigger] facts.tx_outputs@[j]).script_pubkey@
        == r.script_pubkey;
    assert(outputs[j0].script_pubkey@ == r.script_pubkey);
    let first = recipient_amount::first_paying(outputs, r.script_pubkey, n)->0;
    if t > r.amount_sat + r.amount_tolerance_sat || t + r.amount_tolerance_sat < r.amount_sat {
        assert(f(k, r) == Some(recipient_amount::amount_mismatch_finding(first, r, t as u64)));
        lemma_collect_findings_contains(intent.recipients, f, k);
        let m = choose|m: int| 0 <= m < fs.len() && fs[m] == f(k, intent.recipients[k])->0;
        assert(outputs.len() == facts.tx_outputs.len());
        assert(((first as int) as usize) == first);
        assert(fs[m] == recipient_amount::amount_mismatch_finding((first as int) as usize, r, t as u64));
        assert(facts.tx_outputs@[first as int].script_pubkey@ == r.script_pubkey);
    }
}

/// Input `input` (spending `tx_in`) carries only the full previous
/// transaction, whose txid is the outpoint's and which has the spent output.
pub open spec fn spends_from_full_previous_tx(tx_in: TxInputFacts, input: InputFacts) -> bool {
    &&& input.witness_utxo is None
    &&& input.non_witness_utxo matches Some(prev)
    &&& prev.txid@ == tx_in.previous_txid@
    &&& (tx_in.previous_vout as int) < prev.outputs.len()
}

/// The value of output `previous_vout` of the supplied previous transaction.
pub open spec fn spent_output_value(tx_in: TxInputFacts, input: InputFacts) -> nat {
    match input.non_witness_utxo {
        Some(prev) => prev.outputs@[tx_in.previous_vout as int].value_sat as nat,
        None => 0,
    }
}

/// Unchecked total of the spent-output values of the first `n` inputs.
pub open spec fn spent_output_sum(facts: PsbtFacts, n: nat) -> nat
    decreases n,
{
    if n == 0 {
        0
    } else {
        spent_output_sum(facts, (n - 1) as nat) + spent_output_value(
            facts.tx_inputs@[n - 1],
            facts.inputs@[n - 1],
        )
    }
}

/// Law: an input that carries only the full previous transaction is funded
/// by the output at its outpoint's index `previous_vout` of that transaction.
pub proof fn funding_value_is_the_spent_output(index: int, tx_in: TxInputFacts, input: InputFacts)
    requires
        spends_from_full_previous_tx(tx_in, input),
    ensures
        absolute_fee::funding_value(index, tx_in, input) == Ok::<u64, absolute_fee::FeeCalculationError>(
            spent_output_value(tx_in, input) as u64,
        ),
{
}

/// The checked funding total of inputs that carry full previous
/// transactions is the sum of their spent outputs while it fits in 64 bits.
proof fn lemma_funding_total_of_spent_outputs(facts: PsbtFacts, n: nat)
    requires
        n <= absolute_fee::paired_inputs(facts),
        forall|k: int|
            0 <= k < n ==> spends_from_full_previous_tx(
                #[trigger] facts.tx_inputs@[k],
                facts.inputs@[k],
            ),
    ensures
        absolute_fee::funding_total(facts, n) == if spent_output_sum(facts, n) > u64::MAX {
            Err(absolute_fee::FeeCalculationError::AmountOverflow)
        } else {
            Ok::<u64, absolute_fee::FeeCalculationError>(spent_output_sum(facts, n) as u64)
        },
    decreases n,
{
    if n > 0 {
        lemma_funding_total_of_spent_outputs(facts, (n - 1) as nat);
        let k = n - 1;
        assert(spends_from_full_previous_tx(facts.tx_inputs@[k], facts.inputs@[k]));
        funding_value_is_the_spent_output(k, facts.tx_inputs@[k], facts.inputs@[k]);
    }
}

/// Law: when every input carries only its full previous transaction, the
/// fee accounting totals the outputs those inputs spend (output
/// `previous_vout` of each previous transaction): the fee is that total minus
/// the output total, and outputs worth more than it are a value-balance error.
pub proof fn fee_of_inputs_with_full_previous_transactions(facts: PsbtFacts)
    requires
        forall|k: int|
            0 <= k < absolute_fee::paired_inputs(facts) ==> spends_from_full_previous_tx(
                #[trigger] facts.tx_inputs@[k],
                facts.inputs@[k],
            ),
    ensures
        ({
            let ins = spent_output_sum(facts, absolute_fee::paired_inputs(facts));
            let outs = exact_output_sum(facts.tx_outputs@, facts.tx_outputs.len() as nat);
            &&& (ins <= u64::MAX && outs <= ins) ==> absolute_fee::absolute_fee_spec(facts) == Ok::<
                absolute_fee::AbsoluteFee,
                absolute_fee::FeeCalculationError,
            >(
                absolute_fee::AbsoluteFee {
                    input_total_sat: ins as u64,
                    output_total_sat: outs as u64,
                    fee_sat: (ins - outs) as u64,
                },
            )
            &&& (ins <= u64::MAX && outs <= u64::MAX && ins < outs)
                ==> absolute_fee::absolute_fee_spec(facts) == Err::<
                absolute_fee::AbsoluteFee,
                absolute_fee::FeeCalculationError,
            >(
                absolute_fee::FeeCalculationError::OutputsExceedInputs {
                    input_total_sat: ins as u64,
                    output_total_sat: outs as u64,
                },
            )
        }),
{
    lemma_funding_total_of_spent_outputs(facts, absolute_fee::paired_inputs(facts));
    output_total_is_checked_sum(facts.tx_outputs@, facts.tx_outputs.len() as nat);
}

} // verus!
