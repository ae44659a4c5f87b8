use psbt_guard_core::intent::{
    parse_network, validate, ChangePolicy, FeePolicy, IntentError, Network, RawIntent,
    RawRecipientIntent,
};

const TESTNET_ADDRESS: &str = "mipcBbFg9gMiCh81Kj8tqqdgoZub1ZJRfn";
const OTHER_TESTNET_ADDRESS: &str = "n2eMqTT929pb1RDNuqEnxdaLau1rxy3efi";

fn raw(network: &str, recipients: Vec<(&str, u64, u64)>) -> RawIntent {
    RawIntent {
        network: network.to_owned(),
        recipients: recipients
            .into_iter()
            .map(|(address, amount_sat, amount_tolerance_sat)| RawRecipientIntent {
                address: address.to_owned(),
                amount_sat,
                amount_tolerance_sat,
            })
            .collect(),
        fee_policy: FeePolicy::new(2_000),
        change_policy: ChangePolicy::new(1),
    }
}

#[test]
fn validates_a_well_formed_intent() {
    let intent = validate(raw("testnet", vec![(TESTNET_ADDRESS, 60_000, 0)])).expect("valid intent");

    assert_eq!(intent.network(), Network::Testnet);
    assert_eq!(intent.recipients().len(), 1);
    assert_eq!(intent.recipients()[0].amount_sat(), 60_000);
    assert_eq!(intent.recipients()[0].amount_tolerance_sat(), 0);
    assert_eq!(intent.recipients()[0].address(), TESTNET_ADDRESS);
    assert_eq!(intent.fee_policy().max_absolute_fee_sat(), 2_000);
    assert_eq!(intent.change_policy().max_change_outputs(), 1);
    assert_eq!(intent.recipients()[0].script_pubkey().len(), 25);
}

#[test]
fn rejects_wrong_network_address() {
    let result = validate(raw("testnet", vec![("1BoatSLRHtKNngkdXEeobR76b53LETtpyT", 60_000, 0)]));
    assert!(matches!(result, Err(IntentError::InvalidAddress { .. })));
}

#[test]
fn rejects_unsupported_network_and_empty_recipient_list() {
    assert_eq!(
        validate(raw("mainnet", vec![(TESTNET_ADDRESS, 60_000, 0)])),
        Err(IntentError::UnsupportedNetwork("mainnet".to_owned()))
    );
    assert_eq!(validate(raw("testnet", vec![])), Err(IntentError::NoRecipients));
    assert_eq!(parse_network("regtest"), Ok(Network::Regtest));
    assert_eq!(parse_network("signet"), Ok(Network::Signet));
    assert_eq!(parse_network("bitcoin"), Ok(Network::Bitcoin));
}

#[test]
fn rejects_duplicate_zero_and_over_tolerant_recipients() {
    assert_eq!(
        validate(raw(
            "testnet",
            vec![(TESTNET_ADDRESS, 60_000, 0), (TESTNET_ADDRESS, 1_000, 0)]
        )),
        Err(IntentError::DuplicateRecipient(TESTNET_ADDRESS.to_owned()))
    );
    assert_eq!(
        validate(raw("testnet", vec![(TESTNET_ADDRESS, 0, 0)])),
        Err(IntentError::ZeroRecipientAmount(TESTNET_ADDRESS.to_owned()))
    );
    assert_eq!(
        validate(raw("testnet", vec![(OTHER_TESTNET_ADDRESS, 100, 101)])),
        Err(IntentError::ExcessiveTolerance {
            address: OTHER_TESTNET_ADDRESS.to_owned(),
            tolerance_sat: 101,
            amount_sat: 100,
        })
    );
}

#[test]
fn first_invalid_recipient_decides_the_error() {
    let result = validate(raw(
        "testnet",
        vec![(TESTNET_ADDRESS, 0, 0), ("not an address", 5, 0)],
    ));
    assert_eq!(
        result,
        Err(IntentError::ZeroRecipientAmount(TESTNET_ADDRESS.to_owned()))
    );
}

#[test]
fn intent_errors_describe_themselves() {
    let unsupported = validate(raw("mainnet", vec![(TESTNET_ADDRESS, 1, 0)])).expect_err("network");
    assert_eq!(
        unsupported.message(),
        "unsupported intent network `mainnet`; expected bitcoin, testnet, signet or regtest"
    );
    let none = validate(raw("testnet", vec![])).expect_err("no recipients");
    assert_eq!(none.message(), "intent must declare at least one recipient");
    let duplicate = validate(raw(
        "testnet",
        vec![(TESTNET_ADDRESS, 1, 0), (TESTNET_ADDRESS, 2, 0)],
    ))
    .expect_err("duplicate");
    assert_eq!(
        duplicate.message(),
        format!("recipient address `{TESTNET_ADDRESS}` is declared more than once")
    );
    let zero = validate(raw("testnet", vec![(OTHER_TESTNET_ADDRESS, 0, 0)])).expect_err("zero");
    assert_eq!(
        zero.message(),
        format!("recipient `{OTHER_TESTNET_ADDRESS}` must declare an amount greater than zero")
    );
    let tolerance = validate(raw("testnet", vec![(TESTNET_ADDRESS, 10, 11)])).expect_err("tolerance");
    assert_eq!(
        tolerance.message(),
        format!(
            "recipient `{TESTNET_ADDRESS}` has tolerance 11 sat greater than expected amount 10 sat"
        )
    );
    let invalid = validate(raw("testnet", vec![("not-an-address", 1, 0)])).expect_err("address");
    assert!(invalid.message().starts_with("invalid recipient address `not-an-address`: "));
    assert_eq!(
        IntentError::Toml("bad key".to_owned()).message(),
        "invalid TOML intent manifest: bad key"
    );
    assert_eq!(
        IntentError::Json("eof".to_owned()).message(),
        "invalid JSON intent manifest: eof"
    );
}
