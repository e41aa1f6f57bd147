//! The wallet's requests to the ledger and to the secret store, and how their
//! answers become a transaction status.

use vstd::prelude::*;
use crate::language::{Language, NetworkEnvironment};
use crate::status::TxStatus;
use crate::text::{strip_prefix, strip_prefix_str};
use crate::controller::{FaucetRequest, SecretRequest, SubmitRequest};

verus! {

/// Which secret store to open: the service, the account under it, and the language
/// of the store's messages.
pub struct StoreConfig {
    pub service: &'static str,
    pub account: &'static str,
    pub language: Language,
}

/// The store account that holds the secret of `net`.
pub open spec fn network_account(net: NetworkEnvironment) -> Seq<char> {
    match net {
        NetworkEnvironment::Production => "mainnet_account"@,
        NetworkEnvironment::Test => "testnet_account"@,
    }
}

/// The store that held the single secret of earlier versions.
pub fn new_store(lang: Language) -> (r: StoreConfig)
    ensures
        r.service@ == "zsozso"@,
        r.account@ == "default_account"@,
        r.language == lang,
{
    StoreConfig { service: "zsozso", account: "default_account", language: lang }
}

/// The store that holds the secret of network `net`.
pub fn new_store_for_network(lang: Language, net: NetworkEnvironment) -> (r: StoreConfig)
    ensures
        r.service@ == "zsozso"@,
        r.account@ == network_account(net),
        r.language == lang,
{
    let account = match net {
        NetworkEnvironment::Production => "mainnet_account",
        NetworkEnvironment::Test => "testnet_account",
    };
    StoreConfig { service: "zsozso", account, language: lang }
}

/// Submit the signed envelope `xdr_to_submit` on `net_env`: an empty envelope is
/// refused with `NoXdr`, any other is handed to the ledger.
pub fn submit_transaction(xdr_to_submit: String, net_env: NetworkEnvironment, lang: Language) -> (r: Result<SubmitRequest, TxStatus>)
    ensures
        xdr_to_submit@.len() == 0 ==> r == Err::<SubmitRequest, TxStatus>(TxStatus::NoXdr),
        xdr_to_submit@.len() > 0 ==> r == Ok::<SubmitRequest, TxStatus>(SubmitRequest { xdr: xdr_to_submit, network: net_env, language: lang }),
{
    if xdr_to_submit.as_str().unicode_len() == 0 {
        Err(TxStatus::NoXdr)
    } else {
        Ok(SubmitRequest { xdr: xdr_to_submit, network: net_env, language: lang })
    }
}

/// Ask the faucet to fund `pubkey` on `net_env`; without a public key there is nothing
/// to ask.
pub fn activate_test_account(pubkey: Option<String>, net_env: NetworkEnvironment, lang: Language) -> (r: Option<FaucetRequest>)
    ensures
        match pubkey {
            Some(pk) => r == Some(FaucetRequest { public_key: pk, network: net_env, language: lang }),
            None => r is None,
        },
{
    match pubkey {
        Some(pk) => Some(FaucetRequest { public_key: pk, network: net_env, language: lang }),
        None => None,
    }
}

/// Build a self-payment envelope signed with `secret_key` on `net_env`; without a
/// secret the status is `NoKey`.
pub fn fetch_and_generate_xdr(secret_key: Option<String>, net_env: NetworkEnvironment, lang: Language) -> (r: Result<SecretRequest, TxStatus>)
    ensures
        match secret_key {
            Some(secret) => r == Ok::<SecretRequest, TxStatus>(SecretRequest { secret, network: net_env, language: lang }),
            None => r == Err::<SecretRequest, TxStatus>(TxStatus::NoKey),
        },
{
    match secret_key {
        Some(secret) => Ok(SecretRequest { secret, network: net_env, language: lang }),
        None => Err(TxStatus::NoKey),
    }
}

/// The key pair (public key, secret) of the typed secret `raw_input`, given the public
/// key `derived` that the ledger derives from it (nothing when it is no valid secret).
pub fn import_keypair(raw_input: String, derived: Option<String>) -> (r: Option<(String, String)>)
    ensures
        match derived {
            Some(pk) => r == Some((pk, raw_input)),
            None => r is None,
        },
{
    match derived {
        Some(pk) => Some((pk, raw_input)),
        None => None,
    }
}

/// The status after the ledger answered a submission with `result`.
pub fn submission_outcome(result: Result<String, String>) -> (r: TxStatus)
    ensures
        match result {
            Ok(msg) => r == TxStatus::Success(msg),
            Err(e) => r == TxStatus::Error(e),
        },
{
    match result {
        Ok(msg) => TxStatus::Success(msg),
        Err(e) => TxStatus::Error(e),
    }
}

/// The status after the faucet answered with `result`.
pub fn faucet_outcome(result: Result<String, String>) -> (r: TxStatus)
    ensures
        match result {
            Ok(msg) => r == TxStatus::FaucetSuccess(msg),
            Err(e) => r == TxStatus::Error(e),
        },
{
    match result {
        Ok(msg) => TxStatus::FaucetSuccess(msg),
        Err(e) => TxStatus::Error(e),
    }
}

/// The generated envelope and status, or the failure status, after the ledger
/// answered a self-payment build on network `net_name` with `result`
/// (the envelope and its sequence number).
pub fn xdr_outcome(result: Result<(String, i64), String>, net_name: String) -> (r: Result<
    (String, TxStatus),
    TxStatus,
>)
    ensures
        match result {
            Ok((xdr, seq)) => r == Ok::<(String, TxStatus), TxStatus>(
                (xdr, TxStatus::XdrReady { net: net_name, seq }),
            ),
            Err(e) => r == Err::<(String, TxStatus), TxStatus>(TxStatus::Error(e)),
        },
{
    match result {
        Ok((xdr, seq)) => Ok((xdr, TxStatus::XdrReady { net: net_name, seq })),
        Err(e) => Err(TxStatus::Error(e)),
    }
}

/// The prefix that marks the network of a stored secret.
pub open spec fn network_prefix(net: NetworkEnvironment) -> Seq<char> {
    match net {
        NetworkEnvironment::Test => "tn:"@,
        NetworkEnvironment::Production => "mn:"@,
    }
}

/// How a secret of network `net` is stored: `tn:secret` or `mn:secret`.
pub open spec fn stored_secret(net: NetworkEnvironment, secret: Seq<char>) -> Seq<char> {
    network_prefix(net) + secret
}

/// The network and secret that the stored text `data` holds; text without a network
/// prefix (from earlier versions) belongs to `fallback`.
pub open spec fn parse_stored_secret(data: Seq<char>, fallback: NetworkEnvironment) -> (
    NetworkEnvironment,
    Seq<char>,
) {
    match strip_prefix(data, "tn:"@) {
        Some(rest) => (NetworkEnvironment::Test, rest),
        None => match strip_prefix(data, "mn:"@) {
            Some(rest) => (NetworkEnvironment::Production, rest),
            None => (fallback, data),
        },
    }
}

/// The text under which `secret` of network `net` is stored.
pub fn format_stored_secret(net: NetworkEnvironment, secret: &str) -> (r: String)
    ensures
        r@ == stored_secret(net, secret@),
{
    let mut r = match net {
        NetworkEnvironment::Test => "tn:".to_owned(),
        NetworkEnvironment::Production => "mn:".to_owned(),
    };
    r.append(secret);
    r
}

/// The network and secret that the stored text `data` holds; unprefixed text belongs
/// to `fallback`.
pub fn read_stored_secret(data: &str, fallback: NetworkEnvironment) -> (r: (
    NetworkEnvironment,
    String,
))
    ensures
        (r.0, r.1@) == parse_stored_secret(data@, fallback),
{
    if let Some(rest) = strip_prefix_str(data, "tn:") {
        (NetworkEnvironment::Test, rest.to_owned())
    } else if let Some(rest) = strip_prefix_str(data, "mn:") {
        (NetworkEnvironment::Production, rest.to_owned())
    } else {
        (fallback, data.to_owned())
    }
}

/// What is saved is what is loaded: a secret stored with its network's prefix is read
/// back as the same secret of the same network, whatever the current network is.
pub proof fn lemma_stored_secret_roundtrip(
    net: NetworkEnvironment,
    secret: Seq<char>,
    fallback: NetworkEnvironment,
)
    ensures
        parse_stored_secret(stored_secret(net, secret), fallback) == (net, secret),
{
    reveal_strlit("tn:");
    reveal_strlit("mn:");
    let data = stored_secret(net, secret);
    assert(data.subrange(0, 3) =~= network_prefix(net));
    assert(data.subrange(3, data.len() as int) =~= secret);
    if net == NetworkEnvironment::Production {
        assert(data.subrange(0, 3)[0] != "tn:"@[0]);
    }
}

} // verus!
