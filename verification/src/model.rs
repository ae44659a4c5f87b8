//! Core analysis vocabulary: severities, finding codes, findings, and context.

use bitcoin::Psbt;
use vstd::prelude::*;

use crate::intent::{Intent, IntentView};
use crate::facts;
use crate::facts::PsbtFacts;

verus! {

/// How much attention a finding deserves before signing.
///
/// The ordering is semantic: greater means more severe.
#[derive(Clone, Copy, Debug, PartialEq, Eq, Structural, PartialOrd, Ord, Hash)]
pub enum Severity {
    /// Neutral observation; useful context, no action required.
    Info,
    /// Deserves human review, but does not contradict the declared intent.
    Warning,
    /// Contradicts the user-declared intent or policy.
    Violation,
    /// Unsafe to sign regardless of intent (e.g. non-standard sighash).
    Critical,
}

/// Position of a severity on the scale from `Info` (0) to `Critical` (3).
pub open spec fn severity_rank(s: Severity) -> nat {
    match s {
        Severity::Info => 0,
        Severity::Warning => 1,
        Severity::Violation => 2,
        Severity::Critical => 3,
    }
}

/// A severity blocks signing when it is at least `Violation`.
pub open spec fn is_blocking_spec(s: Severity) -> bool {
    severity_rank(s) >= severity_rank(Severity::Violation)
}

impl Severity {
    /// Whether this severity should cause a non-zero (failure) exit code.
    pub fn is_blocking(self) -> (r: bool)
        ensures
            r == is_blocking_spec(self),
    {
        match self {
            Severity::Info | Severity::Warning => false,
            Severity::Violation | Severity::Critical => true,
        }
    }
}

} // verus!

verus! {

/// Stable machine-readable finding identifiers.
#[derive(Clone, Copy, Debug, PartialEq, Eq, Structural, PartialOrd, Ord, Hash)]
pub enum FindingCode {
    /// Missing UTXO information.
    Pg101,
    /// Unknown PSBT fields.
    Pg102,
    /// Proprietary PSBT fields.
    Pg103,
    /// Invalid or non-standard sighash information.
    Pg104,
    /// Input finalization or partial-signature status.
    Pg105,
    /// Absolute fee calculation.
    Pg201,
    /// Declared recipient address missing from the transaction.
    Pg301,
    /// Recipient amount mismatch.
    Pg302,
    /// Output not assigned to a declared recipient or allowed change count.
    Pg303,
    /// Maximum absolute fee policy violation.
    Pg304,
}

/// The five-character catalogue text of a finding code, e.g. `PG101`.
pub open spec fn code_text(c: FindingCode) -> Seq<char> {
    match c {
        FindingCode::Pg101 => seq!['P', 'G', '1', '0', '1'],
        FindingCode::Pg102 => seq!['P', 'G', '1', '0', '2'],
        FindingCode::Pg103 => seq!['P', 'G', '1', '0', '3'],
        FindingCode::Pg104 => seq!['P', 'G', '1', '0', '4'],
        FindingCode::Pg105 => seq!['P', 'G', '1', '0', '5'],
        FindingCode::Pg201 => seq!['P', 'G', '2', '0', '1'],
        FindingCode::Pg301 => seq!['P', 'G', '3', '0', '1'],
        FindingCode::Pg302 => seq!['P', 'G', '3', '0', '2'],
        FindingCode::Pg303 => seq!['P', 'G', '3', '0', '3'],
        FindingCode::Pg304 => seq!['P', 'G', '3', '0', '4'],
    }
}

/// Characters that `str::trim` removes: the Unicode `White_Space` property.
pub open spec fn is_unicode_white_space(c: char) -> bool {
    ||| ('\u{9}' <= c && c <= '\u{d}')
    ||| c == ' '
    ||| c == '\u{85}'
    ||| c == '\u{a0}'
    ||| c == '\u{1680}'
    ||| ('\u{2000}' <= c && c <= '\u{200a}')
    ||| c == '\u{2028}'
    ||| c == '\u{2029}'
    ||| c == '\u{202f}'
    ||| c == '\u{205f}'
    ||| c == '\u{3000}'
}

/// `s` without its leading white space.
pub open spec fn trim_start_spec(s: Seq<char>) -> Seq<char>
    decreases s.len(),
{
    if s.len() > 0 && is_unicode_white_space(s[0]) {
        trim_start_spec(s.drop_first())
    } else {
        s
    }
}

/// `s` without its trailing white space.
pub open spec fn trim_end_spec(s: Seq<char>) -> Seq<char>
    decreases s.len(),
{
    if s.len() > 0 && is_unicode_white_space(s.last()) {
        trim_end_spec(s.drop_last())
    } else {
        s
    }
}

/// `s` without leading and trailing white space.
pub open spec fn trim_spec(s: Seq<char>) -> Seq<char> {
    trim_end_spec(trim_start_spec(s))
}

/// ASCII lowercase letters map to uppercase; every other character is kept.
pub open spec fn ascii_upper(c: char) -> char {
    if 'a' <= c && c <= 'z' {
        ((c as int) - 32) as char
    } else {
        c
    }
}

/// The finding code that `text` names, compared after trimming white space and
/// ignoring ASCII case; `None` when it names none.
pub open spec fn parse_code_spec(text: Seq<char>) -> Option<FindingCode> {
    let t = trim_spec(text).map_values(|c: char| ascii_upper(c));
    if t == code_text(FindingCode::Pg101) {
        Some(FindingCode::Pg101)
    } else if t == code_text(FindingCode::Pg102) {
        Some(FindingCode::Pg102)
    } else if t == code_text(FindingCode::Pg103) {
        Some(FindingCode::Pg103)
    } else if t == code_text(FindingCode::Pg104) {
        Some(FindingCode::Pg104)
    } else if t == code_text(FindingCode::Pg105) {
        Some(FindingCode::Pg105)
    } else if t == code_text(FindingCode::Pg201) {
        Some(FindingCode::Pg201)
    } else if t == code_text(FindingCode::Pg301) {
        Some(FindingCode::Pg301)
    } else if t == code_text(FindingCode::Pg302) {
        Some(FindingCode::Pg302)
    } else if t == code_text(FindingCode::Pg303) {
        Some(FindingCode::Pg303)
    } else if t == code_text(FindingCode::Pg304) {
        Some(FindingCode::Pg304)
    } else {
        None
    }
}

/// `str::trim`: removes leading and trailing Unicode white space.
#[verifier::external_body]
pub(crate) fn trim_white_space(s: &str) -> (r: &str)
    ensures
        r@ == trim_spec(s@),
{
    s.trim()
}

fn upper_char(c: char) -> (r: char)
    ensures
        r == ascii_upper(c),
{
    if 'a' <= c && c <= 'z' {
        ((c as u8) - 32) as char
    } else {
        c
    }
}

impl FindingCode {
    /// Human-readable stable code.
    pub fn as_str(self) -> (s: &'static str)
        ensures
            s@ == code_text(self),
    {
        match self {
            FindingCode::Pg101 => { proof { reveal_strlit("PG101"); } assert("PG101"@ =~= code_text(self)); "PG101" },
            FindingCode::Pg102 => { proof { reveal_strlit("PG102"); } assert("PG102"@ =~= code_text(self)); "PG102" },
            FindingCode::Pg103 => { proof { reveal_strlit("PG103"); } assert("PG103"@ =~= code_text(self)); "PG103" },
            FindingCode::Pg104 => { proof { reveal_strlit("PG104"); } assert("PG104"@ =~= code_text(self)); "PG104" },
            FindingCode::Pg105 => { proof { reveal_strlit("PG105"); } assert("PG105"@ =~= code_text(self)); "PG105" },
            FindingCode::Pg201 => { proof { reveal_strlit("PG201"); } assert("PG201"@ =~= code_text(self)); "PG201" },
            FindingCode::Pg301 => { proof { reveal_strlit("PG301"); } assert("PG301"@ =~= code_text(self)); "PG301" },
            FindingCode::Pg302 => { proof { reveal_strlit("PG302"); } assert("PG302"@ =~= code_text(self)); "PG302" },
            FindingCode::Pg303 => { proof { reveal_strlit("PG303"); } assert("PG303"@ =~= code_text(self)); "PG303" },
            FindingCode::Pg304 => { proof { reveal_strlit("PG304"); } assert("PG304"@ =~= code_text(self)); "PG304" },
        }
    }

    /// Parse a finding code, ignoring surrounding white space and ASCII case.
    pub fn parse(value: &str) -> (r: Result<FindingCode, FindingCodeParseError>)
        ensures
            parse_code_spec(value@) matches Some(c) ==> r == Ok::<FindingCode, FindingCodeParseError>(c),
            parse_code_spec(value@) is None ==> (r matches Err(e) && e.0@ == value@),
    {
        let t = trim_white_space(value);
        let ghost u = t@.map_values(|c: char| ascii_upper(c));
        let n = t.unicode_len();
        let mut found: Option<FindingCode> = None;
        if n == 5 {
            let c0 = upper_char(t.get_char(0));
            let c1 = upper_char(t.get_char(1));
            let c2 = upper_char(t.get_char(2));
            let c3 = upper_char(t.get_char(3));
            let c4 = upper_char(t.get_char(4));
            assert(u =~= seq![c0, c1, c2, c3, c4]);
            if c0 == 'P' && c1 == 'G' {
                found = match (c2, c3, c4) {
                    ('1', '0', '1') => Some(FindingCode::Pg101),
                    ('1', '0', '2') => Some(FindingCode::Pg102),
                    ('1', '0', '3') => Some(FindingCode::Pg103),
                    ('1', '0', '4') => Some(FindingCode::Pg104),
                    ('1', '0', '5') => Some(FindingCode::Pg105),
                    ('2', '0', '1') => Some(FindingCode::Pg201),
                    ('3', '0', '1') => Some(FindingCode::Pg301),
                    ('3', '0', '2') => Some(FindingCode::Pg302),
                    ('3', '0', '3') => Some(FindingCode::Pg303),
                    ('3', '0', '4') => Some(FindingCode::Pg304),
                    _ => None,
                };
            }
        }
        proof {
            assert(u.len() == t@.len());
            if n == 5 {
                assert forall|k: FindingCode| u == code_text(k) implies found == Some(k) by {
                    assert(u[0] == code_text(k)[0] && u[1] == code_text(k)[1] && u[2] == code_text(k)[2]
                        && u[3] == code_text(k)[3] && u[4] == code_text(k)[4]);
                }
                if let Some(c) = found {
                    assert(u =~= code_text(c));
                }
            } else {
                assert forall|k: FindingCode| u != code_text(k) by {
                    assert(code_text(k).len() == 5);
                }
            }
        }
        match found {
            Some(c) => Ok(c),
            None => Err(FindingCodeParseError(value.to_owned())),
        }
    }
}

/// Error returned when a finding-code string is not in the stable catalogue.
#[derive(Clone, Debug, PartialEq, Eq)]
pub struct FindingCodeParseError(pub String);

impl FindingCodeParseError {
    /// The rejected input text.
    pub fn input(&self) -> (s: &str)
        ensures
            s@ == self.0@,
    {
        self.0.as_str()
    }

    /// Human-readable description of the error.
    pub fn message(&self) -> (s: String)
        ensures
            s@ == "unknown finding code `"@ + self.0@
                + "`; expected PG101-PG105, PG201 or PG301-PG304"@,
    {
        let mut s = "unknown finding code `".to_owned();
        s.append(self.0.as_str());
        s.append("`; expected PG101-PG105, PG201 or PG301-PG304");
        s
    }
}

impl std::str::FromStr for FindingCode {
    type Err = FindingCodeParseError;

    fn from_str(value: &str) -> (r: Result<Self, Self::Err>)
        ensures
            parse_code_spec(value@) matches Some(c) ==> r == Ok::<FindingCode, FindingCodeParseError>(c),
            parse_code_spec(value@) is None ==> (r matches Err(e) && e.0@ == value@),
    {
        FindingCode::parse(value)
    }
}


/// Where in the PSBT a finding points.
#[derive(Clone, Copy, Debug, PartialEq, Eq, Structural, Hash)]
pub enum EvidenceScope {
    /// The PSBT global map.
    Global,
    /// A PSBT input map.
    Input,
    /// A PSBT output map.
    Output,
}

/// The characters of an optional string.
pub open spec fn opt_text(o: Option<String>) -> Option<Seq<char>> {
    match o {
        Some(s) => Some(s@),
        None => None,
    }
}

/// Structured pointer to the thing a finding noticed.
#[derive(Clone, Debug, Default, PartialEq, Eq)]
pub struct Evidence {
    /// Which PSBT map the evidence comes from.
    pub scope: Option<EvidenceScope>,
    /// Input index when `scope` is `input`.
    pub input_index: Option<usize>,
    /// Output index when `scope` is `output`.
    pub output_index: Option<usize>,
    /// Field name or grouped field family.
    pub field: Option<String>,
    /// Short deterministic detail value.
    pub actual: Option<String>,
}

/// Mathematical value of an [`Evidence`].
pub struct EvidenceView {
    pub scope: Option<EvidenceScope>,
    pub input_index: Option<usize>,
    pub output_index: Option<usize>,
    pub field: Option<Seq<char>>,
    pub actual: Option<Seq<char>>,
}

impl View for Evidence {
    type V = EvidenceView;

    open spec fn view(&self) -> EvidenceView {
        EvidenceView {
            scope: self.scope,
            input_index: self.input_index,
            output_index: self.output_index,
            field: opt_text(self.field),
            actual: opt_text(self.actual),
        }
    }
}

/// Evidence located in the global map.
pub open spec fn global_evidence(field: Seq<char>, actual: Seq<char>) -> EvidenceView {
    EvidenceView {
        scope: Some(EvidenceScope::Global),
        input_index: None,
        output_index: None,
        field: Some(field),
        actual: Some(actual),
    }
}

/// Evidence located in input map `index`.
pub open spec fn input_evidence(index: usize, field: Seq<char>, actual: Seq<char>) -> EvidenceView {
    EvidenceView {
        scope: Some(EvidenceScope::Input),
        input_index: Some(index),
        output_index: None,
        field: Some(field),
        actual: Some(actual),
    }
}

/// Evidence located in output map `index`.
pub open spec fn output_evidence(index: usize, field: Seq<char>, actual: Seq<char>) -> EvidenceView {
    EvidenceView {
        scope: Some(EvidenceScope::Output),
        input_index: None,
        output_index: Some(index),
        field: Some(field),
        actual: Some(actual),
    }
}

impl Evidence {
    /// Evidence in the global PSBT map.
    pub fn global(field: &str, actual: &str) -> (e: Self)
        ensures
            e@ == global_evidence(field@, actual@),
    {
        Evidence {
            scope: Some(EvidenceScope::Global),
            input_index: None,
            output_index: None,
            field: Some(field.to_owned()),
            actual: Some(actual.to_owned()),
        }
    }

    /// Evidence in an input map.
    pub fn input(index: usize, field: &str, actual: &str) -> (e: Self)
        ensures
            e@ == input_evidence(index, field@, actual@),
    {
        Evidence {
            scope: Some(EvidenceScope::Input),
            input_index: Some(index),
            output_index: None,
            field: Some(field.to_owned()),
            actual: Some(actual.to_owned()),
        }
    }

    /// Evidence in an output map.
    pub fn output(index: usize, field: &str, actual: &str) -> (e: Self)
        ensures
            e@ == output_evidence(index, field@, actual@),
    {
        Evidence {
            scope: Some(EvidenceScope::Output),
            input_index: None,
            output_index: Some(index),
            field: Some(field.to_owned()),
            actual: Some(actual.to_owned()),
        }
    }
}

/// One advisory observation produced by a rule.
#[derive(Clone, Debug, PartialEq, Eq)]
pub struct Finding {
    /// Stable machine identifier.
    pub code: FindingCode,
    /// Review severity.
    pub severity: Severity,
    /// Short human title.
    pub title: String,
    /// Plain-language explanation.
    pub explanation: String,
    /// Structured pointer to what was observed.
    pub evidence: Evidence,
    /// What the signer should check before signing.
    pub suggested_action: String,
}

/// Mathematical value of a [`Finding`].
pub struct FindingView {
    pub code: FindingCode,
    pub severity: Severity,
    pub title: Seq<char>,
    pub explanation: Seq<char>,
    pub evidence: EvidenceView,
    pub suggested_action: Seq<char>,
}

impl View for Finding {
    type V = FindingView;

    open spec fn view(&self) -> FindingView {
        FindingView {
            code: self.code,
            severity: self.severity,
            title: self.title@,
            explanation: self.explanation@,
            evidence: self.evidence@,
            suggested_action: self.suggested_action@,
        }
    }
}

/// The views of a sequence of findings.
pub open spec fn findings_view(findings: Seq<Finding>) -> Seq<FindingView> {
    findings.map_values(|f: Finding| f@)
}

/// A parsed PSBT, in the library's model, plus the optional validated intent.
pub struct AnalysisContext {
    psbt: PsbtFacts,
    intent: Option<Intent>,
}

impl AnalysisContext {
    /// The PSBT under review.
    pub closed spec fn facts(&self) -> PsbtFacts {
        self.psbt
    }

    /// The intent under verification, if any.
    pub closed spec fn intent_view(&self) -> Option<IntentView> {
        match self.intent {
            Some(i) => Some(i@),
            None => None,
        }
    }

    /// Build a read-only analysis context from a parsed PSBT.
    pub fn from_psbt(psbt: Psbt) -> (c: Self)
        ensures
            facts::facts_of(psbt, c.facts()),
            c.intent_view() is None,
    {
        AnalysisContext { psbt: PsbtFacts::from_psbt(&psbt), intent: None }
    }

    /// Build a context for full intent verification.
    pub fn with_intent(psbt: Psbt, intent: Intent) -> (c: Self)
        ensures
            facts::facts_of(psbt, c.facts()),
            c.intent_view() == Some(intent@),
    {
        AnalysisContext { psbt: PsbtFacts::from_psbt(&psbt), intent: Some(intent) }
    }

    /// Build a context from facts written directly by the caller.
    pub fn from_facts(facts: PsbtFacts, intent: Option<Intent>) -> (c: Self)
        ensures
            c.facts() == facts,
            c.intent_view() == match intent {
                Some(i) => Some(i@),
                None => None::<IntentView>,
            },
    {
        AnalysisContext { psbt: facts, intent }
    }

    /// The PSBT under review.
    pub fn psbt(&self) -> (r: &PsbtFacts)
        ensures
            *r == self.facts(),
    {
        &self.psbt
    }

    /// Validated intent, when the caller requested full verification.
    pub fn intent(&self) -> (r: Option<&Intent>)
        ensures
            match r {
                Some(i) => self.intent_view() == Some(i@),
                None => self.intent_view() is None,
            },
    {
        self.intent.as_ref()
    }
}

} // verus!
