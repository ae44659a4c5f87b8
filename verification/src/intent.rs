//! User-declared payment intent.
//!
//! A manifest (TOML primary, JSON with the same shape accepted) is decoded
//! into a [`RawIntent`] by the caller; [`validate`] then checks network and
//! address compatibility, rejects zero-value, duplicate and over-tolerant
//! recipients, and yields a validated [`Intent`].

use vstd::prelude::*;

use crate::bitcoin_api;
use crate::bitcoin_api::decode_address;
use crate::text::{decimal, decimal_string, str_equal};

verus! {

/// Bitcoin networks an intent may target.
#[derive(Clone, Copy, Debug, PartialEq, Eq, Structural, Hash)]
pub enum Network {
    /// Mainnet.
    Bitcoin,
    /// Testnet (version 3).
    Testnet,
    /// Signet.
    Signet,
    /// Regtest.
    Regtest,
}

/// Supported intent-manifest encodings.
#[derive(Clone, Copy, Debug, PartialEq, Eq, Structural)]
pub enum IntentFormat {
    /// TOML manifest.
    Toml,
    /// JSON manifest.
    Json,
}

/// Absolute-fee ceiling.
#[derive(Clone, Copy, Debug, PartialEq, Eq)]
pub struct FeePolicy {
    max_absolute_fee_sat: u64,
}

impl FeePolicy {
    /// A fee policy with the given ceiling.
    pub fn new(max_absolute_fee_sat: u64) -> (p: Self)
        ensures
            p.spec_max_absolute_fee_sat() == max_absolute_fee_sat,
    {
        FeePolicy { max_absolute_fee_sat }
    }

    /// The ceiling, in satoshis.
    pub closed spec fn spec_max_absolute_fee_sat(self) -> u64 {
        self.max_absolute_fee_sat
    }

    /// Maximum fee the transaction may pay.
    pub fn max_absolute_fee_sat(&self) -> (r: u64)
        ensures
            r == self.spec_max_absolute_fee_sat(),
    {
        self.max_absolute_fee_sat
    }
}

/// Count-based allowance for outputs not assigned to declared recipients.
///
/// This does not prove those outputs belong to the user's wallet.
#[derive(Clone, Copy, Debug, PartialEq, Eq)]
pub struct ChangePolicy {
    max_change_outputs: usize,
}

impl ChangePolicy {
    /// A change policy with the given allowance.
    pub fn new(max_change_outputs: usize) -> (p: Self)
        ensures
            p.spec_max_change_outputs() == max_change_outputs,
    {
        ChangePolicy { max_change_outputs }
    }

    /// The allowance.
    pub closed spec fn spec_max_change_outputs(self) -> usize {
        self.max_change_outputs
    }

    /// Maximum number of undeclared outputs tolerated as change candidates.
    pub fn max_change_outputs(&self) -> (r: usize)
        ensures
            r == self.spec_max_change_outputs(),
    {
        self.max_change_outputs
    }
}

/// One recipient as written in the manifest, before validation.
#[derive(Clone, Debug, PartialEq, Eq)]
pub struct RawRecipientIntent {
    /// Address text.
    pub address: String,
    /// Expected aggregate amount.
    pub amount_sat: u64,
    /// Allowed absolute difference (zero when the manifest omits it).
    pub amount_tolerance_sat: u64,
}

/// A decoded but not yet validated manifest.
#[derive(Clone, Debug, PartialEq, Eq)]
pub struct RawIntent {
    /// Network name.
    pub network: String,
    /// Declared recipients, in manifest order.
    pub recipients: Vec<RawRecipientIntent>,
    /// Fee policy.
    pub fee_policy: FeePolicy,
    /// Change policy.
    pub change_policy: ChangePolicy,
}

/// Mathematical value of a [`RawRecipientIntent`].
pub struct RawRecipientView {
    pub address: Seq<char>,
    pub amount_sat: u64,
    pub amount_tolerance_sat: u64,
}

impl View for RawRecipientIntent {
    type V = RawRecipientView;

    open spec fn view(&self) -> RawRecipientView {
        RawRecipientView {
            address: self.address@,
            amount_sat: self.amount_sat,
            amount_tolerance_sat: self.amount_tolerance_sat,
        }
    }
}

/// Mathematical value of a [`RawIntent`].
pub struct RawIntentView {
    pub network: Seq<char>,
    pub recipients: Seq<RawRecipientView>,
    pub max_absolute_fee_sat: u64,
    pub max_change_outputs: usize,
}

impl View for RawIntent {
    type V = RawIntentView;

    open spec fn view(&self) -> RawIntentView {
        RawIntentView {
            network: self.network@,
            recipients: self.recipients@.map_values(|r: RawRecipientIntent| r@),
            max_absolute_fee_sat: self.fee_policy.spec_max_absolute_fee_sat(),
            max_change_outputs: self.change_policy.spec_max_change_outputs(),
        }
    }
}

/// One declared recipient and the amount expected at its script.
#[derive(Clone, Debug, PartialEq, Eq)]
pub struct RecipientIntent {
    address: String,
    script_pubkey: Vec<u8>,
    amount_sat: u64,
    amount_tolerance_sat: u64,
}

/// Mathematical value of a [`RecipientIntent`].
pub struct RecipientView {
    /// Canonical address text.
    pub address: Seq<char>,
    /// The address's `scriptPubKey`.
    pub script_pubkey: Seq<u8>,
    pub amount_sat: u64,
    pub amount_tolerance_sat: u64,
}

impl View for RecipientIntent {
    type V = RecipientView;

    closed spec fn view(&self) -> RecipientView {
        RecipientView {
            address: self.address@,
            script_pubkey: self.script_pubkey@,
            amount_sat: self.amount_sat,
            amount_tolerance_sat: self.amount_tolerance_sat,
        }
    }
}

impl RecipientIntent {
    /// Validated recipient address, in canonical text form.
    pub fn address(&self) -> (r: &str)
        ensures
            r@ == self@.address,
    {
        self.address.as_str()
    }

    /// The `scriptPubKey` an output must carry to pay this recipient.
    pub fn script_pubkey(&self) -> (r: &[u8])
        ensures
            r@ == self@.script_pubkey,
    {
        self.script_pubkey.as_slice()
    }

    /// Expected aggregate amount paid to this address.
    pub fn amount_sat(&self) -> (r: u64)
        ensures
            r == self@.amount_sat,
    {
        self.amount_sat
    }

    /// Allowed absolute difference from the expected amount.
    pub fn amount_tolerance_sat(&self) -> (r: u64)
        ensures
            r == self@.amount_tolerance_sat,
    {
        self.amount_tolerance_sat
    }
}

/// Mathematical value of an [`Intent`].
pub struct IntentView {
    pub network: Network,
    pub recipients: Seq<RecipientView>,
    pub max_absolute_fee_sat: u64,
    pub max_change_outputs: usize,
}

/// A validated intent: at least one recipient, every amount positive, every
/// tolerance at most its amount, and no address declared twice.
pub open spec fn intent_wf(i: IntentView) -> bool {
    &&& i.recipients.len() > 0
    &&& forall|k: int|
        0 <= k < i.recipients.len() ==> {
            &&& #[trigger] i.recipients[k].amount_sat > 0
            &&& i.recipients[k].amount_tolerance_sat <= i.recipients[k].amount_sat
        }
    &&& forall|j: int, k: int|
        0 <= j < k < i.recipients.len() ==> #[trigger] i.recipients[j].address
            != #[trigger] i.recipients[k].address
}

/// A validated payment intent.
#[derive(Clone, Debug, PartialEq, Eq)]
pub struct Intent {
    network: Network,
    recipients: Vec<RecipientIntent>,
    fee_policy: FeePolicy,
    change_policy: ChangePolicy,
}

impl View for Intent {
    type V = IntentView;

    closed spec fn view(&self) -> IntentView {
        IntentView {
            network: self.network,
            recipients: self.recipients@.map_values(|r: RecipientIntent| r@),
            max_absolute_fee_sat: self.fee_policy.spec_max_absolute_fee_sat(),
            max_change_outputs: self.change_policy.spec_max_change_outputs(),
        }
    }
}

impl Intent {
    /// Network all recipient addresses belong to.
    pub fn network(&self) -> (r: Network)
        ensures
            r == self@.network,
    {
        self.network
    }

    /// Declared recipients, preserved in manifest order.
    pub fn recipients(&self) -> (r: &[RecipientIntent])
        ensures
            r@.map_values(|x: RecipientIntent| x@) == self@.recipients,
    {
        self.recipients.as_slice()
    }

    /// Absolute-fee policy.
    pub fn fee_policy(&self) -> (r: &FeePolicy)
        ensures
            r.spec_max_absolute_fee_sat() == self@.max_absolute_fee_sat,
    {
        &self.fee_policy
    }

    /// Count-based change policy.
    pub fn change_policy(&self) -> (r: &ChangePolicy)
        ensures
            r.spec_max_change_outputs() == self@.max_change_outputs,
    {
        &self.change_policy
    }
}

/// Intent-manifest validation errors.
#[derive(Clone, Debug, PartialEq, Eq)]
pub enum IntentError {
    /// TOML syntax or schema error, with the decoder's message.
    Toml(String),
    /// JSON syntax or schema error, with the decoder's message.
    Json(String),
    /// Unsupported network name.
    UnsupportedNetwork(String),
    /// At least one recipient is required.
    NoRecipients,
    /// Address text was malformed or belonged to another network.
    InvalidAddress { address: String, reason: String },
    /// Duplicate recipient declarations make matching ambiguous.
    DuplicateRecipient(String),
    /// Zero-value recipients are rejected as likely manifest mistakes.
    ZeroRecipientAmount(String),
    /// A tolerance larger than the expected amount could accept a zero payment.
    ExcessiveTolerance { address: String, tolerance_sat: u64, amount_sat: u64 },
}

/// Mathematical value of an [`IntentError`].
pub enum IntentErrorView {
    Toml(Seq<char>),
    Json(Seq<char>),
    UnsupportedNetwork(Seq<char>),
    NoRecipients,
    InvalidAddress { address: Seq<char>, reason: Seq<char> },
    DuplicateRecipient(Seq<char>),
    ZeroRecipientAmount(Seq<char>),
    ExcessiveTolerance { address: Seq<char>, tolerance_sat: u64, amount_sat: u64 },
}

impl View for IntentError {
    type V = IntentErrorView;

    open spec fn view(&self) -> IntentErrorView {
        match self {
            IntentError::Toml(s) => IntentErrorView::Toml(s@),
            IntentError::Json(s) => IntentErrorView::Json(s@),
            IntentError::UnsupportedNetwork(s) => IntentErrorView::UnsupportedNetwork(s@),
            IntentError::NoRecipients => IntentErrorView::NoRecipients,
            IntentError::InvalidAddress { address, reason } => IntentErrorView::InvalidAddress {
                address: address@,
                reason: reason@,
            },
            IntentError::DuplicateRecipient(s) => IntentErrorView::DuplicateRecipient(s@),
            IntentError::ZeroRecipientAmount(s) => IntentErrorView::ZeroRecipientAmount(s@),
            IntentError::ExcessiveTolerance { address, tolerance_sat, amount_sat } =>
                IntentErrorView::ExcessiveTolerance {
                address: address@,
                tolerance_sat: *tolerance_sat,
                amount_sat: *amount_sat,
            },
        }
    }
}

/// The human-readable description of an intent error.
pub open spec fn intent_error_text(e: IntentErrorView) -> Seq<char> {
    match e {
        IntentErrorView::Toml(m) => "invalid TOML intent manifest: "@ + m,
        IntentErrorView::Json(m) => "invalid JSON intent manifest: "@ + m,
        IntentErrorView::UnsupportedNetwork(n) => "unsupported intent network `"@ + n
            + "`; expected bitcoin, testnet, signet or regtest"@,
        IntentErrorView::NoRecipients => "intent must declare at least one recipient"@,
        IntentErrorView::InvalidAddress { address, reason } => "invalid recipient address `"@
            + address + "`: "@ + reason,
        IntentErrorView::DuplicateRecipient(a) => "recipient address `"@ + a
            + "` is declared more than once"@,
        IntentErrorView::ZeroRecipientAmount(a) => "recipient `"@ + a
            + "` must declare an amount greater than zero"@,
        IntentErrorView::ExcessiveTolerance { address, tolerance_sat, amount_sat } => "recipient `"@
            + address + "` has tolerance "@ + decimal(tolerance_sat as nat)
            + " sat greater than expected amount "@ + decimal(amount_sat as nat) + " sat"@,
    }
}

impl IntentError {
    /// Human-readable description of the error.
    pub fn message(&self) -> (s: String)
        ensures
            s@ == intent_error_text(self@),
    {
        match self {
            IntentError::Toml(m) => {
                let mut s = "invalid TOML intent manifest: ".to_owned();
                s.append(m.as_str());
                s
            },
            IntentError::Json(m) => {
                let mut s = "invalid JSON intent manifest: ".to_owned();
                s.append(m.as_str());
                s
            },
            IntentError::UnsupportedNetwork(n) => {
                let mut s = "unsupported intent network `".to_owned();
                s.append(n.as_str());
                s.append("`; expected bitcoin, testnet, signet or regtest");
                s
            },
            IntentError::NoRecipients => "intent must declare at least one recipient".to_owned(),
            IntentError::InvalidAddress { address, reason } => {
                let mut s = "invalid recipient address `".to_owned();
                s.append(address.as_str());
                s.append("`: ");
                s.append(reason.as_str());
                s
            },
            IntentError::DuplicateRecipient(a) => {
                let mut s = "recipient address `".to_owned();
                s.append(a.as_str());
                s.append("` is declared more than once");
                s
            },
            IntentError::ZeroRecipientAmount(a) => {
                let mut s = "recipient `".to_owned();
                s.append(a.as_str());
                s.append("` must declare an amount greater than zero");
                s
            },
            IntentError::ExcessiveTolerance { address, tolerance_sat, amount_sat } => {
                let mut s = "recipient `".to_owned();
                s.append(address.as_str());
                s.append("` has tolerance ");
                let t = decimal_string(*tolerance_sat as u128);
                s.append(t.as_str());
                s.append(" sat greater than expected amount ");
                let a = decimal_string(*amount_sat as u128);
                s.append(a.as_str());
                s.append(" sat");
                s
            },
        }
    }
}

/// The network a manifest names: exactly `bitcoin`, `testnet`, `signet` or `regtest`.
pub open spec fn network_from_name(name: Seq<char>) -> Option<Network> {
    if name == "bitcoin"@ {
        Some(Network::Bitcoin)
    } else if name == "testnet"@ {
        Some(Network::Testnet)
    } else if name == "signet"@ {
        Some(Network::Signet)
    } else if name == "regtest"@ {
        Some(Network::Regtest)
    } else {
        None
    }
}

/// Validation of one recipient, given the recipients accepted before it.
pub open spec fn check_recipient(
    raw: RawRecipientView,
    network: Network,
    accepted: Seq<RecipientView>,
) -> Result<RecipientView, IntentErrorView> {
    match bitcoin_api::address_decoding(raw.address, network) {
        Err(reason) => Err(IntentErrorView::InvalidAddress { address: raw.address, reason }),
        Ok((canonical, script)) => if exists|j: int|
            0 <= j < accepted.len() && #[trigger] accepted[j].address == canonical {
            Err(IntentErrorView::DuplicateRecipient(canonical))
        } else if raw.amount_sat == 0 {
            Err(IntentErrorView::ZeroRecipientAmount(canonical))
        } else if raw.amount_tolerance_sat > raw.amount_sat {
            Err(
                IntentErrorView::ExcessiveTolerance {
                    address: canonical,
                    tolerance_sat: raw.amount_tolerance_sat,
                    amount_sat: raw.amount_sat,
                },
            )
        } else {
            Ok(
                RecipientView {
                    address: canonical,
                    script_pubkey: script,
                    amount_sat: raw.amount_sat,
                    amount_tolerance_sat: raw.amount_tolerance_sat,
                },
            )
        },
    }
}

/// Validation of recipients in manifest order; the first failure wins.
pub open spec fn validate_recipients(raws: Seq<RawRecipientView>, network: Network) -> Result<
    Seq<RecipientView>,
    IntentErrorView,
>
    decreases raws.len(),
{
    if raws.len() == 0 {
        Ok(seq![])
    } else {
        match validate_recipients(raws.drop_last(), network) {
            Err(e) => Err(e),
            Ok(accepted) => match check_recipient(raws.last(), network, accepted) {
                Err(e) => Err(e),
                Ok(r) => Ok(accepted.push(r)),
            },
        }
    }
}

/// The outcome of validating a decoded manifest.
pub open spec fn validate_spec(raw: RawIntentView) -> Result<IntentView, IntentErrorView> {
    match network_from_name(raw.network) {
        None => Err(IntentErrorView::UnsupportedNetwork(raw.network)),
        Some(network) => if raw.recipients.len() == 0 {
            Err(IntentErrorView::NoRecipients)
        } else {
            match validate_recipients(raw.recipients, network) {
                Err(e) => Err(e),
                Ok(recipients) => Ok(
                    IntentView {
                        network,
                        recipients,
                        max_absolute_fee_sat: raw.max_absolute_fee_sat,
                        max_change_outputs: raw.max_change_outputs,
                    },
                ),
            }
        },
    }
}

/// Once a prefix of the recipients fails validation, the whole list fails
/// with the same error.
proof fn lemma_validation_error_persists(raws: Seq<RawRecipientView>, network: Network, k: int)
    requires
        0 <= k <= raws.len(),
        validate_recipients(raws.take(k), network) is Err,
    ensures
        validate_recipients(raws, network) == validate_recipients(raws.take(k), network),
    decreases raws.len(),
{
    if k == raws.len() {
        assert(raws.take(k) =~= raws);
    } else {
        assert(raws.drop_last().take(k) =~= raws.take(k));
        lemma_validation_error_persists(raws.drop_last(), network, k);
    }
}

/// Every recipient accepted by validation has a positive amount, a tolerance
/// within its amount, and an address that no other accepted recipient has.
proof fn lemma_validated_recipients_wf(raws: Seq<RawRecipientView>, network: Network)
    ensures
        validate_recipients(raws, network) matches Ok(rs) ==> {
            &&& rs.len() == raws.len()
            &&& forall|k: int|
                0 <= k < rs.len() ==> {
                    &&& #[trigger] rs[k].amount_sat > 0
                    &&& rs[k].amount_tolerance_sat <= rs[k].amount_sat
                }
            &&& forall|j: int, k: int|
                0 <= j < k < rs.len() ==> #[trigger] rs[j].address != #[trigger] rs[k].address
        },
    decreases raws.len(),
{
    if raws.len() > 0 {
        lemma_validated_recipients_wf(raws.drop_last(), network);
    }
}

/// Law: a manifest that validates yields a well-formed intent — at least one
/// recipient, positive amounts, tolerances within their amounts, and no
/// address declared twice.
pub proof fn validated_intent_is_well_formed(raw: RawIntentView)
    ensures
        validate_spec(raw) matches Ok(i) ==> intent_wf(i),
{
    if let Some(network) = network_from_name(raw.network) {
        lemma_validated_recipients_wf(raw.recipients, network);
    }
}

/// Resolve a manifest network name.
pub fn parse_network(value: &str) -> (r: Result<Network, IntentError>)
    ensures
        match network_from_name(value@) {
            Some(n) => r == Ok::<Network, IntentError>(n),
            None => r matches Err(e) && e@ == IntentErrorView::UnsupportedNetwork(value@),
        },
{
    if str_equal(value, "bitcoin") {
        Ok(Network::Bitcoin)
    } else if str_equal(value, "testnet") {
        Ok(Network::Testnet)
    } else if str_equal(value, "signet") {
        Ok(Network::Signet)
    } else if str_equal(value, "regtest") {
        Ok(Network::Regtest)
    } else {
        Err(IntentError::UnsupportedNetwork(value.to_owned()))
    }
}

/// Validate a decoded manifest into an [`Intent`].
pub fn validate(raw: RawIntent) -> (r: Result<Intent, IntentError>)
    ensures
        match validate_spec(raw@) {
            Ok(i) => r matches Ok(intent) && intent@ == i,
            Err(e) => r matches Err(err) && err@ == e,
        },
        r matches Ok(intent) ==> intent_wf(intent@),
{
    let network = match parse_network(raw.network.as_str()) {
        Ok(n) => n,
        Err(e) => return Err(e),
    };
    if raw.recipients.len() == 0 {
        return Err(IntentError::NoRecipients);
    }
    let ghost raws = raw@.recipients;
    let mut recipients: Vec<RecipientIntent> = Vec::new();
    let mut i: usize = 0;
    assert(raws.take(0) =~= Seq::<RawRecipientView>::empty());
    assert(recipients@.map_values(|x: RecipientIntent| x@) =~= Seq::<RecipientView>::empty());
    while i < raw.recipients.len()
        invariant
            i <= raw.recipients.len(),
            raws == raw.recipients@.map_values(|r: RawRecipientIntent| r@),
            raws == raw@.recipients,
            raws.len() > 0,
            network_from_name(raw@.network) == Some(network),
            validate_recipients(raws.take(i as int), network) == Ok::<
                Seq<RecipientView>,
                IntentErrorView,
            >(recipients@.map_values(|x: RecipientIntent| x@)),
        decreases raw.recipients.len() - i,
    {
        let item = &raw.recipients[i];
        let ghost accepted = recipients@.map_values(|x: RecipientIntent| x@);
        let ghost prefix = raws.take(i + 1);
        assert(prefix.drop_last() =~= raws.take(i as int));
        assert(prefix.last() == item@);
        assert(validate_recipients(prefix, network) == match check_recipient(item@, network, accepted) {
            Err(e) => Err(e),
            Ok(r) => Ok::<Seq<RecipientView>, IntentErrorView>(accepted.push(r)),
        });
        let (canonical, script) = match decode_address(item.address.as_str(), network) {
            Ok(decoded) => decoded,
            Err(reason) => {
                let e = IntentError::InvalidAddress { address: item.address.clone(), reason };
                proof { lemma_validation_error_persists(raws, network, i + 1); }
                return Err(e);
            },
        };
        let mut j: usize = 0;
        #[verifier::loop_isolation(false)]
        while j < recipients.len()
            invariant
                i < raws.len(),
                raws.len() == raw.recipients.len(),
                j <= recipients.len(),
                accepted == recipients@.map_values(|x: RecipientIntent| x@),
                forall|k: int| 0 <= k < j ==> accepted[k].address != canonical@,
            decreases recipients.len() - j,
        {
            if recipients[j].address == canonical {
                assert(accepted[j as int].address == canonical@);
                proof { lemma_validation_error_persists(raws, network, i + 1); }
                return Err(IntentError::DuplicateRecipient(canonical));
            }
            j = j + 1;
        }
        assert(!exists|k: int| 0 <= k < accepted.len() && #[trigger] accepted[k].address == canonical@);
        if item.amount_sat == 0 {
            proof { lemma_validation_error_persists(raws, network, i + 1); }
            return Err(IntentError::ZeroRecipientAmount(canonical));
        }
        if item.amount_tolerance_sat > item.amount_sat {
            proof { lemma_validation_error_persists(raws, network, i + 1); }
            return Err(
                IntentError::ExcessiveTolerance {
                    address: canonical,
                    tolerance_sat: item.amount_tolerance_sat,
                    amount_sat: item.amount_sat,
                },
            );
        }
        recipients.push(
            RecipientIntent {
                address: canonical,
                script_pubkey: script,
                amount_sat: item.amount_sat,
                amount_tolerance_sat: item.amount_tolerance_sat,
            },
        );
        assert(recipients@.map_values(|x: RecipientIntent| x@) =~= accepted.push(
            recipients@.last()@,
        ));
        i = i + 1;
    }
    assert(raws.take(raw.recipients.len() as int) =~= raws);
    proof { validated_intent_is_well_formed(raw@); }
    Ok(
        Intent {
            network,
            recipients,
            fee_policy: raw.fee_policy,
            change_policy: raw.change_policy,
        },
    )
}

} // verus!
