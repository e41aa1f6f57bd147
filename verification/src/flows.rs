//! The wallet's longer conversations with the outside world: saving and loading
//! secrets, and reading and writing the network graph.
//!
//! Each conversation is a flow value. Its start method changes the state and returns
//! the first request; its step method takes the answer to the last request, changes the
//! state, and returns the lines to log and the next request, until the request is
//! `Finished`.

use vstd::prelude::*;
use vstd::utf8::encode_utf8;
use crate::language::{Language, NetworkEnvironment};
use crate::state::WalletState;
use crate::controller::{AppController, PasskeyOutcome, switch_confirmed};
use crate::actions::{StoreConfig, new_store, new_store_for_network, stored_secret, format_stored_secret, read_stored_secret, parse_stored_secret, network_account, network_prefix, lemma_stored_secret_roundtrip};
use crate::text::{strip_prefix, strip_prefix_str};
use crate::i18n::{UiI18n, UiStr, UiFmt, ui_str, ui_fmt_with, ui_i18n};
use crate::text::{clone_text, decimal_nat};

verus! {

/// What the wallet asks the outside world to do next.
pub enum Request {
    /// Nothing: the flow is over.
    Finished,
    /// Authenticate with the passkey to obtain its PRF key.
    PasskeyInit,
    /// Encrypt `data` with the PRF key.
    Encrypt { data: String, prf_key: String },
    /// Decrypt `data` with the PRF key.
    Decrypt { data: String, prf_key: String },
    /// Save `data` in `store`.
    StoreSave { store: StoreConfig, data: String },
    /// Load the data of `store`.
    StoreLoad { store: StoreConfig },
    /// Derive the public key of `secret` on `network`.
    DerivePublicKey { network: NetworkEnvironment, language: Language, secret: String },
}

/// What the outside world answered.
pub enum Reply {
    /// A passkey ceremony ran (or could not run).
    Passkey(PasskeyOutcome),
    /// A text, or an error: encryption, decryption, loading.
    Text(Result<String, String>),
    /// Done, or an error: saving.
    Saved(Result<(), String>),
    /// The derived public key, or nothing for an invalid secret.
    PublicKey(Option<String>),
}

/// The lines to log, and the next request.
pub struct Step {
    pub logs: Vec<String>,
    pub request: Request,
}

/// The texts of `v`.
pub open spec fn texts(v: Seq<String>) -> Seq<Seq<char>> {
    v.map_values(|s: String| s@)
}

/// Whether `c` is the store `account` of the wallet, with messages in `lang`.
pub open spec fn store_is(c: StoreConfig, account: Seq<char>, lang: Language) -> bool {
    &&& c.service@ == "zsozso"@
    &&& c.account@ == account
    &&& c.language == lang
}

/// The error line for a failed passkey authentication answered `outcome`, when it
/// yielded no PRF key.
pub open spec fn passkey_failure_text(lang: Language, outcome: PasskeyOutcome) -> Seq<char> {
    match outcome {
        PasskeyOutcome::Done { success: true, .. } => ui_fmt_with(lang, UiFmt::FmtError, ui_str(lang, UiStr::NoPrfKey)),
        PasskeyOutcome::Done { success: false, error, .. } => ui_fmt_with(lang, UiFmt::FmtError, match error {
            Some(e) => e@,
            None => "Authentication failed"@,
        }),
        PasskeyOutcome::Failed(e) => ui_fmt_with(lang, UiFmt::FmtError, e@),
    }
}

/// The PRF key that passkey outcome `outcome` yielded, if it succeeded with one.
pub open spec fn passkey_prf(outcome: PasskeyOutcome) -> Option<String> {
    match outcome {
        PasskeyOutcome::Done { success: true, prf_key, .. } => prf_key,
        _ => None,
    }
}

fn no_logs() -> (r: Vec<String>)
    ensures
        r@.len() == 0,
        texts(r@) == Seq::<Seq<char>>::empty(),
{
    let logs: Vec<String> = Vec::new();
    assert(texts(logs@) =~= Seq::<Seq<char>>::empty());
    logs
}

fn finished() -> (r: Step)
    ensures
        r.logs@.len() == 0,
        r.request is Finished,
{
    Step { logs: Vec::new(), request: Request::Finished }
}

fn log_only(line: String) -> (r: Step)
    ensures
        texts(r.logs@) == seq![line@],
        r.request is Finished,
{
    let mut logs = Vec::new();
    logs.push(line);
    assert(texts(logs@) =~= seq![line@]);
    Step { logs, request: Request::Finished }
}

fn ask(request: Request) -> (r: Step)
    ensures
        r.logs@.len() == 0,
        texts(r.logs@) == Seq::<Seq<char>>::empty(),
        r.request == request,
{
    Step { logs: no_logs(), request }
}

/// The PRF key of `outcome`, or the line that reports why there is none.
fn passkey_result(lang: Language, outcome: PasskeyOutcome) -> (r: Result<String, String>)
    ensures
        match passkey_prf(outcome) {
            Some(k) => r == Ok::<String, String>(k),
            None => r matches Err(line) && line@ == passkey_failure_text(lang, outcome),
        },
{
    let i18n = ui_i18n(lang);
    match outcome {
        PasskeyOutcome::Done { success: true, prf_key, .. } => match prf_key {
            Some(k) => Ok(k),
            None => Err(i18n.fmt_error(i18n.no_prf_key())),
        },
        PasskeyOutcome::Done { success: false, error, .. } => {
            let e = match error {
                Some(e) => e,
                None => "Authentication failed".to_owned(),
            };
            Err(i18n.fmt_error(e.as_str()))
        },
        PasskeyOutcome::Failed(e) => Err(i18n.fmt_error(e.as_str())),
    }
}

/// Where saving the active secret stands.
#[derive(Clone, Copy)]
pub enum SaveStage {
    AwaitPrf,
    AwaitEncrypt,
    AwaitSave,
    Done,
}

/// Saving the active secret in the store, prefixed with its network.
pub struct SaveFlow {
    pub language: Language,
    /// The prefixed secret.
    pub data: String,
    pub stage: SaveStage,
}

/// Where loading the secret from the store stands.
#[derive(Clone, Copy)]
pub enum LoadStage {
    AwaitLoad,
    AwaitPrf,
    AwaitDecrypt,
    AwaitPublicKey,
    Done,
}

/// Loading the secret from the store and making it the active key.
pub struct LoadFlow {
    pub language: Language,
    /// Whether the stored data is encrypted with the passkey.
    pub encrypted: bool,
    /// The PRF key known when loading started.
    pub prf_key: Option<String>,
    /// The data loaded from the store.
    pub stored: String,
    /// The network and secret that the stored data holds.
    pub network: NetworkEnvironment,
    pub secret: String,
    pub stage: LoadStage,
}

/// What starting to save the active secret does: from state `before` to `after`,
/// returning flow and step `r`; `localhost` tells whether the app runs on localhost.
pub open spec fn save_started(before: WalletState, after: WalletState, localhost: bool, r: (SaveFlow, Step)) -> bool {
    &&& (!before.biometric_enabled && !localhost ==> {
        &&& after == (WalletState { biometric_save_modal_open: true, ..before })
        &&& r.1.logs@.len() == 0
        &&& r.1.request is Finished
    })
    &&& ((before.biometric_enabled || localhost) && before.secret_key_hidden is None ==> {
        &&& after == before
        &&& texts(r.1.logs@) == seq![ui_str(before.language, UiStr::NothingToSave)]
        &&& r.1.request is Finished
    })
    &&& ((before.biometric_enabled || localhost) && before.secret_key_hidden is Some ==> {
        let data = stored_secret(before.current_network, before.secret_key_hidden->0@);
        &&& after == before
        &&& r.0.language == before.language
        &&& r.0.data@ == data
        &&& r.1.logs@.len() == 0
        &&& if localhost || !before.biometric_enabled {
            &&& r.0.stage is AwaitSave
            &&& (r.1.request matches Request::StoreSave { store, data: d } && store_is(store, "default_account"@, before.language) && d@ == data)
        } else {
            match before.prf_key {
                Some(k) => r.0.stage is AwaitEncrypt && (r.1.request matches Request::Encrypt { data: d, prf_key } && d@ == data && prf_key == k),
                None => r.0.stage is AwaitPrf && r.1.request is PasskeyInit,
            }
        }
    })
}

/// `s` with the loaded key pair (`pk`, `secret`) of network `net` active, on that
/// network, and the public key recorded in that network's slot.
pub open spec fn with_loaded_key(s: WalletState, net: NetworkEnvironment, pk: String, secret: String) -> WalletState {
    match net {
        NetworkEnvironment::Production => WalletState {
            current_network: net,
            public_key: Some(pk),
            secret_key_hidden: Some(secret),
            mainnet_public_key: Some(pk),
            ..s
        },
        NetworkEnvironment::Test => WalletState {
            current_network: net,
            public_key: Some(pk),
            secret_key_hidden: Some(secret),
            testnet_public_key: Some(pk),
            ..s
        },
    }
}

/// What reading the stored text `data` leads to, with `fallback` the network of
/// unprefixed text: flow `from` goes on as `f`, waiting for the public key of the secret
/// that `data` holds, after logging the secret's length in bytes.
pub open spec fn secret_read(from: LoadFlow, fallback: NetworkEnvironment, data: Seq<char>, f: LoadFlow, step: Step) -> bool {
    let lang = from.language;
    let (net, secret) = parse_stored_secret(data, fallback);
    &&& f == (LoadFlow { network: net, secret: f.secret, stage: LoadStage::AwaitPublicKey, ..from })
    &&& f.secret@ == secret
    &&& texts(step.logs@) == seq![ui_fmt_with(lang, UiFmt::KeyLoadedLen, decimal_nat((encode_utf8(secret).len() as usize) as nat))]
    &&& (step.request matches Request::DerivePublicKey { network, language, secret: s } && network == net && language == lang && s@ == secret)
}

/// What saving writes, loading reads back: when saving the active secret starts, the
/// text it hands to the store (before any encryption) is read, on whatever network the
/// wallet then is, as the same secret of the network it was saved on.
pub proof fn lemma_saved_secret_loads_back(
    before: WalletState,
    after: WalletState,
    localhost: bool,
    r: (SaveFlow, Step),
    from: LoadFlow,
    fallback: NetworkEnvironment,
    f: LoadFlow,
    step: Step,
)
    requires
        save_started(before, after, localhost, r),
        before.biometric_enabled || localhost,
        before.secret_key_hidden is Some,
        secret_read(from, fallback, r.0.data@, f, step),
    ensures
        f.network == before.current_network,
        f.secret@ == before.secret_key_hidden->0@,
{
    lemma_stored_secret_roundtrip(before.current_network, before.secret_key_hidden->0@, fallback);
}

fn read_secret(flow: LoadFlow, data: &str, fallback: NetworkEnvironment) -> (r: (LoadFlow, Step))
    ensures
        secret_read(flow, fallback, data@, r.0, r.1),
{
    let (net, secret) = read_stored_secret(data, fallback);
    let i18n = ui_i18n(flow.language);
    let line = i18n.key_loaded_len(secret.as_str().len());
    let mut logs = Vec::new();
    logs.push(line);
    assert(texts(logs@) =~= seq![line@]);
    let request = Request::DerivePublicKey { network: net, language: flow.language, secret: secret.clone() };
    (LoadFlow { network: net, secret, stage: LoadStage::AwaitPublicKey, ..flow }, Step { logs, request })
}

impl AppController {
    /// Save the active secret in the store, prefixed with its network (`tn:` or `mn:`),
    /// encrypted with the passkey when biometric identification is on (except on
    /// localhost). Saving is refused, with a modal, when biometric identification is off
    /// (except on localhost). Without a secret there is nothing to save.
    pub fn save_to_store(&mut self, localhost: bool) -> (r: (SaveFlow, Step))
        ensures
            save_started(old(self).s, final(self).s, localhost, r),
    {
        let lang = self.s.language;
        let bio = self.s.biometric_enabled;
        if !bio && !localhost {
            self.s.biometric_save_modal_open = true;
            return (SaveFlow { language: lang, data: String::new(), stage: SaveStage::Done }, finished());
        }
        match clone_text(&self.s.secret_key_hidden) {
            Some(secret) => {
                let data = format_stored_secret(self.s.current_network, secret.as_str());
                let kept = data.clone();
                if localhost || !bio {
                    (SaveFlow { language: lang, data: kept, stage: SaveStage::AwaitSave },
                     ask(Request::StoreSave { store: new_store(lang), data }))
                } else {
                    match clone_text(&self.s.prf_key) {
                        Some(k) => (SaveFlow { language: lang, data: kept, stage: SaveStage::AwaitEncrypt },
                                    ask(Request::Encrypt { data, prf_key: k })),
                        None => (SaveFlow { language: lang, data: kept, stage: SaveStage::AwaitPrf },
                                 ask(Request::PasskeyInit)),
                    }
                }
            },
            None => {
                let line = ui_i18n(lang).nothing_to_save().to_owned();
                (SaveFlow { language: lang, data: String::new(), stage: SaveStage::Done }, log_only(line))
            },
        }
    }

    /// The user chose to save the secret under the current network first, then switch.
    pub fn confirm_network_switch_save(&mut self, localhost: bool) -> (r: (SaveFlow, Step))
        ensures
            exists|mid: WalletState| #![trigger save_started(old(self).s, mid, localhost, r)]
                save_started(old(self).s, mid, localhost, r) && switch_confirmed(mid, final(self).s),
    {
        let r = self.save_to_store(localhost);
        let ghost mid = self.s;
        self.confirm_network_switch_discard();
        assert(save_started(old(self).s, mid, localhost, r) && switch_confirmed(mid, self.s));
        r
    }

    /// The user chose to switch first, then save the secret under the new network.
    pub fn confirm_network_switch_and_save(&mut self, localhost: bool) -> (r: (SaveFlow, Step))
        ensures
            exists|mid: WalletState| #![trigger save_started(mid, final(self).s, localhost, r)]
                switch_confirmed(old(self).s, mid) && save_started(mid, final(self).s, localhost, r),
    {
        self.confirm_network_switch_discard();
        let ghost mid = self.s;
        let r = self.save_to_store(localhost);
        assert(switch_confirmed(old(self).s, mid) && save_started(mid, self.s, localhost, r));
        r
    }

    /// Load the secret from the store and make it the active key, on the network its
    /// prefix names. The stored data is decrypted with the passkey when biometric
    /// identification is on (except on localhost).
    pub fn load_from_store(&mut self, localhost: bool) -> (r: (LoadFlow, Step))
        ensures
            final(self).s == old(self).s,
            r.0.language == old(self).s.language,
            r.0.encrypted == (!localhost && old(self).s.biometric_enabled),
            r.0.prf_key == old(self).s.prf_key,
            r.0.stage is AwaitLoad,
            texts(r.1.logs@) == seq![ui_str(old(self).s.language, UiStr::LoadingStarted)],
            r.1.request matches Request::StoreLoad { store } && store_is(store, "default_account"@, old(self).s.language),
    {
        let lang = self.s.language;
        let line = ui_i18n(lang).loading_started().to_owned();
        let mut logs = Vec::new();
        logs.push(line);
        assert(texts(logs@) =~= seq![line@]);
        let flow = LoadFlow {
            language: lang,
            encrypted: !localhost && self.s.biometric_enabled,
            prf_key: clone_text(&self.s.prf_key),
            stored: String::new(),
            network: self.s.current_network,
            secret: String::new(),
            stage: LoadStage::AwaitLoad,
        };
        (flow, Step { logs, request: Request::StoreLoad { store: new_store(lang) } })
    }

    /// Continue loading with the answer `reply`.
    pub fn load_from_store_step(&mut self, flow: LoadFlow, reply: Reply) -> (r: (LoadFlow, Step))
        ensures
            match (flow.stage, reply) {
                (LoadStage::AwaitLoad, Reply::Text(Ok(data))) => {
                    &&& final(self).s == old(self).s
                    &&& if !flow.encrypted {
                        secret_read(flow, old(self).s.current_network, data@, r.0, r.1)
                    } else {
                        match flow.prf_key {
                            Some(k) => {
                                &&& r.0 == (LoadFlow { stage: LoadStage::AwaitDecrypt, ..flow })
                                &&& r.1.logs@.len() == 0
                                &&& r.1.request == Request::Decrypt { data, prf_key: k }
                            },
                            None => {
                                &&& r.0 == (LoadFlow { stage: LoadStage::AwaitPrf, stored: data, ..flow })
                                &&& r.1.logs@.len() == 0
                                &&& r.1.request is PasskeyInit
                            },
                        }
                    }
                },
                (LoadStage::AwaitLoad, Reply::Text(Err(e))) => {
                    &&& final(self).s == old(self).s
                    &&& r.0 == (LoadFlow { stage: LoadStage::Done, ..flow })
                    &&& texts(r.1.logs@) == seq![ui_fmt_with(flow.language, UiFmt::FmtError, e@)]
                    &&& r.1.request is Finished
                },
                (LoadStage::AwaitPrf, Reply::Passkey(outcome)) => match passkey_prf(outcome) {
                    Some(k) => {
                        &&& final(self).s == (WalletState { prf_key: Some(k), ..old(self).s })
                        &&& r.0 == (LoadFlow { stage: LoadStage::AwaitDecrypt, ..flow })
                        &&& r.1.logs@.len() == 0
                        &&& (r.1.request matches Request::Decrypt { data, prf_key } && data == flow.stored && prf_key == k)
                    },
                    None => {
                        &&& final(self).s == old(self).s
                        &&& r.0 == (LoadFlow { stage: LoadStage::Done, ..flow })
                        &&& texts(r.1.logs@) == seq![passkey_failure_text(flow.language, outcome)]
                        &&& r.1.request is Finished
                    },
                },
                (LoadStage::AwaitDecrypt, Reply::Text(Ok(data))) => {
                    &&& final(self).s == old(self).s
                    &&& secret_read(flow, old(self).s.current_network, data@, r.0, r.1)
                },
                (LoadStage::AwaitDecrypt, Reply::Text(Err(e))) => {
                    &&& final(self).s == old(self).s
                    &&& r.0 == (LoadFlow { stage: LoadStage::Done, ..flow })
                    &&& texts(r.1.logs@) == seq![ui_fmt_with(flow.language, UiFmt::FmtError, e@)]
                    &&& r.1.request is Finished
                },
                (LoadStage::AwaitPublicKey, Reply::PublicKey(Some(pk))) => {
                    &&& final(self).s == with_loaded_key(old(self).s, flow.network, pk, flow.secret)
                    &&& r.0 == (LoadFlow { stage: LoadStage::Done, ..flow })
                    &&& texts(r.1.logs@) == seq![ui_str(flow.language, UiStr::UiUpdatedWithKey)]
                    &&& r.1.request is Finished
                },
                _ => final(self).s == old(self).s && r.0 == (LoadFlow { stage: LoadStage::Done, ..flow }) && r.1.logs@.len() == 0 && r.1.request is Finished,
            },
    {
        let lang = flow.language;
        let i18n = ui_i18n(lang);
        match (flow.stage, reply) {
            (LoadStage::AwaitLoad, Reply::Text(Ok(data))) => {
                if !flow.encrypted {
                    read_secret(flow, data.as_str(), self.s.current_network)
                } else {
                    match clone_text(&flow.prf_key) {
                        Some(k) => (LoadFlow { stage: LoadStage::AwaitDecrypt, ..flow }, ask(Request::Decrypt { data, prf_key: k })),
                        None => (LoadFlow { stage: LoadStage::AwaitPrf, stored: data, ..flow }, ask(Request::PasskeyInit)),
                    }
                }
            },
            (LoadStage::AwaitLoad, Reply::Text(Err(e))) => (LoadFlow { stage: LoadStage::Done, ..flow }, log_only(i18n.fmt_error(e.as_str()))),
            (LoadStage::AwaitPrf, Reply::Passkey(outcome)) => match passkey_result(lang, outcome) {
                Ok(k) => {
                    self.s.prf_key = Some(k.clone());
                    let data = flow.stored.clone();
                    (LoadFlow { stage: LoadStage::AwaitDecrypt, ..flow }, ask(Request::Decrypt { data, prf_key: k }))
                },
                Err(line) => (LoadFlow { stage: LoadStage::Done, ..flow }, log_only(line)),
            },
            (LoadStage::AwaitDecrypt, Reply::Text(Ok(data))) => read_secret(flow, data.as_str(), self.s.current_network),
            (LoadStage::AwaitDecrypt, Reply::Text(Err(e))) => (LoadFlow { stage: LoadStage::Done, ..flow }, log_only(i18n.fmt_error(e.as_str()))),
            (LoadStage::AwaitPublicKey, Reply::PublicKey(Some(pk))) => {
                let net = flow.network;
                let secret = flow.secret.clone();
                self.s.current_network = net;
                self.s.public_key = Some(pk.clone());
                crate::text::replace_secret(&mut self.s.secret_key_hidden, Some(secret));
                match net {
                    NetworkEnvironment::Production => self.s.mainnet_public_key = Some(pk),
                    NetworkEnvironment::Test => self.s.testnet_public_key = Some(pk),
                }
                (LoadFlow { stage: LoadStage::Done, ..flow }, log_only(i18n.ui_updated_with_key().to_owned()))
            },
            _ => (LoadFlow { stage: LoadStage::Done, ..flow }, finished()),
        }
    }

    /// Continue saving with the answer `reply`.
    pub fn save_to_store_step(&mut self, flow: SaveFlow, reply: Reply) -> (r: (SaveFlow, Step))
        ensures
            match (flow.stage, reply) {
                (SaveStage::AwaitPrf, Reply::Passkey(outcome)) => match passkey_prf(outcome) {
                    Some(k) => {
                        &&& final(self).s == (WalletState { prf_key: Some(k), ..old(self).s })
                        &&& r.0 == (SaveFlow { stage: SaveStage::AwaitEncrypt, ..flow })
                        &&& r.1.logs@.len() == 0
                        &&& (r.1.request matches Request::Encrypt { data, prf_key } && data@ == flow.data@ && prf_key == k)
                    },
                    None => {
                        &&& final(self).s == old(self).s
                        &&& r.0 == (SaveFlow { stage: SaveStage::Done, ..flow })
                        &&& texts(r.1.logs@) == seq![passkey_failure_text(flow.language, outcome)]
                        &&& r.1.request is Finished
                    },
                },
                (SaveStage::AwaitEncrypt, Reply::Text(Ok(encrypted))) => {
                    &&& final(self).s == old(self).s
                    &&& r.0 == (SaveFlow { stage: SaveStage::AwaitSave, ..flow })
                    &&& r.1.logs@.len() == 0
                    &&& (r.1.request matches Request::StoreSave { store, data } && store_is(store, "default_account"@, flow.language) && data == encrypted)
                },
                (SaveStage::AwaitEncrypt, Reply::Text(Err(e))) => {
                    &&& final(self).s == old(self).s
                    &&& r.0 == (SaveFlow { stage: SaveStage::Done, ..flow })
                    &&& texts(r.1.logs@) == seq![ui_fmt_with(flow.language, UiFmt::FmtError, e@)]
                    &&& r.1.request is Finished
                },
                (SaveStage::AwaitSave, Reply::Saved(Ok(_))) => {
                    &&& final(self).s == old(self).s
                    &&& r.0 == (SaveFlow { stage: SaveStage::Done, ..flow })
                    &&& texts(r.1.logs@) == seq![ui_str(flow.language, UiStr::SaveSuccess)]
                    &&& r.1.request is Finished
                },
                (SaveStage::AwaitSave, Reply::Saved(Err(e))) => {
                    &&& final(self).s == old(self).s
                    &&& r.0 == (SaveFlow { stage: SaveStage::Done, ..flow })
                    &&& texts(r.1.logs@) == seq![ui_fmt_with(flow.language, UiFmt::FmtError, e@)]
                    &&& r.1.request is Finished
                },
                _ => final(self).s == old(self).s && r.0 == (SaveFlow { stage: SaveStage::Done, ..flow }) && r.1.logs@.len() == 0 && r.1.request is Finished,
            },
    {
        let lang = flow.language;
        let i18n = ui_i18n(lang);
        match (flow.stage, reply) {
            (SaveStage::AwaitPrf, Reply::Passkey(outcome)) => match passkey_result(lang, outcome) {
                Ok(k) => {
                    self.s.prf_key = Some(k.clone());
                    let data = flow.data.clone();
                    (SaveFlow { stage: SaveStage::AwaitEncrypt, ..flow }, ask(Request::Encrypt { data, prf_key: k }))
                },
                Err(line) => (SaveFlow { stage: SaveStage::Done, ..flow }, log_only(line)),
            },
            (SaveStage::AwaitEncrypt, Reply::Text(Ok(encrypted))) => (
                SaveFlow { stage: SaveStage::AwaitSave, ..flow },
                ask(Request::StoreSave { store: new_store(lang), data: encrypted }),
            ),
            (SaveStage::AwaitEncrypt, Reply::Text(Err(e))) => (SaveFlow { stage: SaveStage::Done, ..flow }, log_only(i18n.fmt_error(e.as_str()))),
            (SaveStage::AwaitSave, Reply::Saved(Ok(_))) => (SaveFlow { stage: SaveStage::Done, ..flow }, log_only(i18n.save_success().to_owned())),
            (SaveStage::AwaitSave, Reply::Saved(Err(e))) => (SaveFlow { stage: SaveStage::Done, ..flow }, log_only(i18n.fmt_error(e.as_str()))),
            _ => (SaveFlow { stage: SaveStage::Done, ..flow }, finished()),
        }
    }
}


/// Where saving the keys of both networks stands.
#[derive(Clone, Copy)]
pub enum SaveAllStage {
    AwaitPrf,
    AwaitEncrypt(NetworkEnvironment),
    AwaitSave(NetworkEnvironment),
    Done,
}

/// Saving the secret of each network that has one in that network's store.
pub struct SaveAllFlow {
    pub language: Language,
    /// The PRF key that encrypts the secrets, if they are encrypted.
    pub prf_key: Option<String>,
    pub mainnet_secret: Option<String>,
    pub testnet_secret: Option<String>,
    pub stage: SaveAllStage,
}

/// The secret of network `net` that flow `f` saves.
pub open spec fn save_all_secret(f: SaveAllFlow, net: NetworkEnvironment) -> Option<String> {
    match net {
        NetworkEnvironment::Production => f.mainnet_secret,
        NetworkEnvironment::Test => f.testnet_secret,
    }
}

/// The line that reports the saved key of `net`.
pub open spec fn saved_line(net: NetworkEnvironment) -> Seq<char> {
    match net {
        NetworkEnvironment::Production => "[save_all] Mainnet key saved"@,
        NetworkEnvironment::Test => "[save_all] Testnet key saved"@,
    }
}

/// Whether `r` is how flow `f` goes on saving, starting with network `from`
/// (mainnet before testnet), after the lines `logs`: it encrypts (or, without a PRF key,
/// saves) the next secret, or, with none left, reports success and ends.
pub open spec fn save_all_continues(f: SaveAllFlow, from: NetworkEnvironment, r: (SaveAllFlow, Step), logs: Seq<Seq<char>>) -> bool {
    let net = if from == NetworkEnvironment::Production && f.mainnet_secret is None {
        NetworkEnvironment::Test
    } else {
        from
    };
    match save_all_secret(f, net) {
        Some(secret) => {
            &&& texts(r.1.logs@) == logs
            &&& match f.prf_key {
                Some(k) => r.0 == (SaveAllFlow { stage: SaveAllStage::AwaitEncrypt(net), ..f })
                    && (r.1.request matches Request::Encrypt { data, prf_key } && data == secret && prf_key == k),
                None => r.0 == (SaveAllFlow { stage: SaveAllStage::AwaitSave(net), ..f })
                    && (r.1.request matches Request::StoreSave { store, data } && store_is(store, network_account(net), f.language) && data == secret),
            }
        },
        None => {
            &&& r.0 == (SaveAllFlow { stage: SaveAllStage::Done, ..f })
            &&& texts(r.1.logs@) == logs.push(ui_str(f.language, UiStr::SaveSuccess))
            &&& r.1.request is Finished
        },
    }
}

fn save_all_next(f: SaveAllFlow, from: NetworkEnvironment, logs: Vec<String>) -> (r: (SaveAllFlow, Step))
    ensures
        save_all_continues(f, from, r, texts(logs@)),
{
    let net = if from == NetworkEnvironment::Production && f.mainnet_secret.is_none() {
        NetworkEnvironment::Test
    } else {
        from
    };
    let secret = match net {
        NetworkEnvironment::Production => clone_text(&f.mainnet_secret),
        NetworkEnvironment::Test => clone_text(&f.testnet_secret),
    };
    match secret {
        Some(secret) => match clone_text(&f.prf_key) {
            Some(k) => (SaveAllFlow { stage: SaveAllStage::AwaitEncrypt(net), ..f }, Step { logs, request: Request::Encrypt { data: secret, prf_key: k } }),
            None => {
                let store = new_store_for_network(f.language, net);
                (SaveAllFlow { stage: SaveAllStage::AwaitSave(net), ..f }, Step { logs, request: Request::StoreSave { store, data: secret } })
            },
        },
        None => {
            let mut logs = logs;
            let ghost before = texts(logs@);
            logs.push(ui_i18n(f.language).save_success().to_owned());
            assert(texts(logs@) =~= before.push(ui_str(f.language, UiStr::SaveSuccess)));
            (SaveAllFlow { stage: SaveAllStage::Done, ..f }, Step { logs, request: Request::Finished })
        },
    }
}

/// What starting to save both keys does, from `before` to `after`.
pub open spec fn save_all_started(before: WalletState, after: WalletState, localhost: bool, r: (SaveAllFlow, Step)) -> bool {
    if !before.biometric_enabled && !localhost {
        &&& after == (WalletState { biometric_save_modal_open: true, ..before })
        &&& r.1.logs@.len() == 0
        &&& r.1.request is Finished
    } else if before.mainnet_secret_key is None && before.testnet_secret_key is None {
        &&& after == before
        &&& texts(r.1.logs@) == seq![ui_str(before.language, UiStr::NothingToSave)]
        &&& r.1.request is Finished
    } else {
        &&& after == before
        &&& r.0.language == before.language
        &&& r.0.mainnet_secret == before.mainnet_secret_key
        &&& r.0.testnet_secret == before.testnet_secret_key
        &&& if localhost || !before.biometric_enabled {
            r.0.prf_key is None && save_all_continues(r.0, NetworkEnvironment::Production, r, Seq::empty())
        } else {
            match before.prf_key {
                Some(k) => r.0.prf_key == Some(k) && save_all_continues(r.0, NetworkEnvironment::Production, r, Seq::empty()),
                None => r.0.stage is AwaitPrf && r.1.logs@.len() == 0 && r.1.request is PasskeyInit,
            }
        }
    }
}

/// What one step of saving both keys does: flow `flow` takes the answer `reply`, from
/// state `before` to `after`, and goes on with `r`.
pub open spec fn save_all_stepped(before: WalletState, after: WalletState, flow: SaveAllFlow, reply: Reply, r: (SaveAllFlow, Step)) -> bool {
    match (flow.stage, reply) {
        (SaveAllStage::AwaitPrf, Reply::Passkey(outcome)) => match passkey_prf(outcome) {
            Some(k) => {
                &&& after == (WalletState { prf_key: Some(k), ..before })
                &&& save_all_continues(SaveAllFlow { prf_key: Some(k), ..flow }, NetworkEnvironment::Production, r, Seq::empty())
            },
            None => {
                &&& after == before
                &&& r.0 == (SaveAllFlow { stage: SaveAllStage::Done, ..flow })
                &&& texts(r.1.logs@) == seq![ui_fmt_with(flow.language, UiFmt::FmtError, match outcome {
                    PasskeyOutcome::Done { success: true, .. } => ui_str(flow.language, UiStr::NoPrfKey),
                    _ => "Authentication failed"@,
                })]
                &&& r.1.request is Finished
            },
        },
        (SaveAllStage::AwaitEncrypt(net), Reply::Text(Ok(encrypted))) => {
            &&& after == before
            &&& r.0 == (SaveAllFlow { stage: SaveAllStage::AwaitSave(net), ..flow })
            &&& r.1.logs@.len() == 0
            &&& (r.1.request matches Request::StoreSave { store, data } && store_is(store, network_account(net), flow.language) && data == encrypted)
        },
        (SaveAllStage::AwaitSave(net), Reply::Saved(Ok(_))) => {
            &&& after == before
            &&& match net {
                NetworkEnvironment::Production => save_all_continues(flow, NetworkEnvironment::Test, r, seq![saved_line(net)]),
                NetworkEnvironment::Test => r.0 == (SaveAllFlow { stage: SaveAllStage::Done, ..flow })
                    && texts(r.1.logs@) == seq![saved_line(net), ui_str(flow.language, UiStr::SaveSuccess)] && r.1.request is Finished,
            }
        },
        (SaveAllStage::AwaitEncrypt(_), Reply::Text(Err(e))) | (SaveAllStage::AwaitSave(_), Reply::Saved(Err(e))) => {
            &&& after == before
            &&& r.0 == (SaveAllFlow { stage: SaveAllStage::Done, ..flow })
            &&& texts(r.1.logs@) == seq![ui_fmt_with(flow.language, UiFmt::FmtError, e@)]
            &&& r.1.request is Finished
        },
        _ => after == before && r.0 == (SaveAllFlow { stage: SaveAllStage::Done, ..flow }) && r.1.logs@.len() == 0 && r.1.request is Finished,
    }
}

/// Where loading the keys of both networks stands.
#[derive(Clone, Copy)]
pub enum LoadAllStage {
    AwaitPrf,
    AwaitLoad(NetworkEnvironment),
    AwaitDecrypt(NetworkEnvironment),
    AwaitKey(NetworkEnvironment),
    AwaitLegacyLoad,
    AwaitLegacyDecrypt,
    AwaitLegacyKey,
    Done,
}

/// Loading the key of each network from its store, then the key of the single store of
/// earlier versions where a network has none yet.
pub struct LoadAllFlow {
    pub language: Language,
    /// The PRF key that decrypts the stored secrets, if they are encrypted.
    pub prf_key: Option<String>,
    /// The network and secret being checked with the ledger.
    pub network: NetworkEnvironment,
    pub secret: String,
    pub stage: LoadAllStage,
}

/// The line that reports the loaded key of `net`.
pub open spec fn loaded_line(net: NetworkEnvironment) -> Seq<char> {
    match net {
        NetworkEnvironment::Production => "[load_all] Mainnet key loaded"@,
        NetworkEnvironment::Test => "[load_all] Testnet key loaded"@,
    }
}

/// The line that reports the migrated key of earlier versions, as a key of `net`.
pub open spec fn migrated_line(net: NetworkEnvironment) -> Seq<char> {
    match net {
        NetworkEnvironment::Production => "[load_all] Migrated legacy key as mainnet"@,
        NetworkEnvironment::Test => "[load_all] Migrated legacy key as testnet"@,
    }
}

/// Whether `r` goes on from flow `f` with the load that follows the one of network
/// `net` (testnet after mainnet, the old single store after testnet), after lines `logs`.
pub open spec fn load_all_moves_on(f: LoadAllFlow, net: NetworkEnvironment, r: (LoadAllFlow, Step), logs: Seq<Seq<char>>) -> bool {
    &&& texts(r.1.logs@) == logs
    &&& match net {
        NetworkEnvironment::Production => r.0 == (LoadAllFlow { stage: LoadAllStage::AwaitLoad(NetworkEnvironment::Test), ..f })
            && (r.1.request matches Request::StoreLoad { store } && store_is(store, network_account(NetworkEnvironment::Test), f.language)),
        NetworkEnvironment::Test => r.0 == (LoadAllFlow { stage: LoadAllStage::AwaitLegacyLoad, ..f })
            && (r.1.request matches Request::StoreLoad { store } && store_is(store, "default_account"@, f.language)),
    }
}

/// Whether `r` is how flow `f` goes on with the text `d` that the store of network `net`
/// held (decrypted, where it was encrypted), after lines `logs`: a non-empty secret
/// (without its network prefix) is checked with the ledger; otherwise the flow moves on.
pub open spec fn load_all_read(f: LoadAllFlow, net: NetworkEnvironment, d: Seq<char>, r: (LoadAllFlow, Step), logs: Seq<Seq<char>>) -> bool {
    let secret = match strip_prefix(d, network_prefix(net)) {
        Some(rest) => rest,
        None => d,
    };
    if secret.len() > 0 {
        &&& r.0 == (LoadAllFlow { stage: LoadAllStage::AwaitKey(net), network: net, secret: r.0.secret, ..f })
        &&& texts(r.1.logs@) == logs
        &&& r.0.secret@ == secret
        &&& (r.1.request matches Request::DerivePublicKey { network, language, secret: s } && network == net && language == f.language && s@ == secret)
    } else {
        load_all_moves_on(f, net, r, logs)
    }
}

/// What saving both keys writes, loading both reads back: a non-empty secret that the
/// store of network `net` holds, as saved (bare) or with its network's prefix, is
/// checked with the ledger as that same secret of `net`. (A bare secret that itself
/// begins with the network's prefix would lose it.)
pub proof fn lemma_network_key_loads_back(
    f: LoadAllFlow,
    net: NetworkEnvironment,
    secret: Seq<char>,
    d: Seq<char>,
    r: (LoadAllFlow, Step),
    logs: Seq<Seq<char>>,
)
    requires
        secret.len() > 0,
        strip_prefix(secret, network_prefix(net)) is None,
        d == secret || d == stored_secret(net, secret),
        load_all_read(f, net, d, r, logs),
    ensures
        r.0.network == net,
        r.0.secret@ == secret,
        r.0.stage == LoadAllStage::AwaitKey(net),
{
    reveal_strlit("tn:");
    reveal_strlit("mn:");
    if d == stored_secret(net, secret) {
        assert(d.subrange(0, 3) =~= network_prefix(net));
        assert(d.subrange(3, d.len() as int) =~= secret);
    }
}

/// `s` with the active key taken from the mainnet slot, or else from the testnet slot.
pub open spec fn synced(s: WalletState) -> WalletState {
    match s.mainnet_public_key {
        Some(pk) => WalletState { public_key: Some(pk), secret_key_hidden: s.mainnet_secret_key, ..s },
        None => match s.testnet_public_key {
            Some(pk) => WalletState { public_key: Some(pk), secret_key_hidden: s.testnet_secret_key, ..s },
            None => s,
        },
    }
}

/// Whether loading ends from `before` in `after` with `r`, after lines `logs`: the active
/// key is synchronised with the network slots and the update is reported.
pub open spec fn load_all_ends(before: WalletState, after: WalletState, f: LoadAllFlow, r: (LoadAllFlow, Step), logs: Seq<Seq<char>>) -> bool {
    &&& after == synced(before)
    &&& r.0 == (LoadAllFlow { stage: LoadAllStage::Done, ..f })
    &&& texts(r.1.logs@) == logs.push(ui_str(f.language, UiStr::UiUpdatedWithKey))
    &&& r.1.request is Finished
}

/// Whether `r` is how flow `f` goes on with the text `d` of the old single store, after
/// lines `logs`, from `before` to `after`: an empty text ends the load; otherwise the
/// secret it holds (mainnet without a prefix) is checked with the ledger.
pub open spec fn load_all_legacy_read(before: WalletState, after: WalletState, f: LoadAllFlow, d: Seq<char>, r: (LoadAllFlow, Step), logs: Seq<Seq<char>>) -> bool {
    if d.len() == 0 {
        load_all_ends(before, after, f, r, logs)
    } else {
        let (net, secret) = parse_stored_secret(d, NetworkEnvironment::Production);
        &&& after == before
        &&& r.0 == (LoadAllFlow { stage: LoadAllStage::AwaitLegacyKey, network: net, secret: r.0.secret, ..f })
        &&& texts(r.1.logs@) == logs
        &&& r.0.secret@ == secret
        &&& (r.1.request matches Request::DerivePublicKey { network, language, secret: s } && network == net && language == f.language && s@ == secret)
    }
}

/// `s` with the key pair (`pk`, `sk`) of network `net` in that network's slots, and, for
/// the mainnet, active.
pub open spec fn with_loaded_network_key(s: WalletState, net: NetworkEnvironment, pk: String, sk: String) -> WalletState {
    match net {
        NetworkEnvironment::Production => WalletState {
            mainnet_public_key: Some(pk),
            mainnet_secret_key: Some(sk),
            public_key: Some(pk),
            ..s
        },
        NetworkEnvironment::Test => WalletState { testnet_public_key: Some(pk), testnet_secret_key: Some(sk), ..s },
    }
}

/// The public key slot of network `net`.
pub open spec fn public_key_of(s: WalletState, net: NetworkEnvironment) -> Option<String> {
    match net {
        NetworkEnvironment::Production => s.mainnet_public_key,
        NetworkEnvironment::Test => s.testnet_public_key,
    }
}

fn one_log(line: String) -> (r: Vec<String>)
    ensures
        texts(r@) == seq![line@],
{
    let mut logs = Vec::new();
    logs.push(line);
    assert(texts(logs@) =~= seq![line@]);
    logs
}

fn load_all_next(f: LoadAllFlow, net: NetworkEnvironment, logs: Vec<String>) -> (r: (LoadAllFlow, Step))
    ensures
        load_all_moves_on(f, net, r, texts(logs@)),
{
    match net {
        NetworkEnvironment::Production => {
            let store = new_store_for_network(f.language, NetworkEnvironment::Test);
            (LoadAllFlow { stage: LoadAllStage::AwaitLoad(NetworkEnvironment::Test), ..f }, Step { logs, request: Request::StoreLoad { store } })
        },
        NetworkEnvironment::Test => {
            let store = new_store(f.language);
            (LoadAllFlow { stage: LoadAllStage::AwaitLegacyLoad, ..f }, Step { logs, request: Request::StoreLoad { store } })
        },
    }
}

fn load_all_read_text(f: LoadAllFlow, net: NetworkEnvironment, d: &str, logs: Vec<String>) -> (r: (LoadAllFlow, Step))
    ensures
        load_all_read(f, net, d@, r, texts(logs@)),
{
    let prefix = match net {
        NetworkEnvironment::Production => "mn:",
        NetworkEnvironment::Test => "tn:",
    };
    let secret = match strip_prefix_str(d, prefix) {
        Some(rest) => rest.to_owned(),
        None => d.to_owned(),
    };
    if secret.as_str().unicode_len() > 0 {
        let request = Request::DerivePublicKey { network: net, language: f.language, secret: secret.clone() };
        (LoadAllFlow { stage: LoadAllStage::AwaitKey(net), network: net, secret, ..f }, Step { logs, request })
    } else {
        load_all_next(f, net, logs)
    }
}

impl AppController {
    /// Save the secret of each network that has one in that network's store, encrypted
    /// with the passkey when biometric identification is on (except on localhost).
    /// Saving is refused, with a modal, when biometric identification is off (except on
    /// localhost).
    pub fn save_all_to_store(&mut self, localhost: bool) -> (r: (SaveAllFlow, Step))
        ensures
            save_all_started(old(self).s, final(self).s, localhost, r),
    {
        let lang = self.s.language;
        let bio = self.s.biometric_enabled;
        if !bio && !localhost {
            self.s.biometric_save_modal_open = true;
            let f = SaveAllFlow { language: lang, prf_key: None, mainnet_secret: None, testnet_secret: None, stage: SaveAllStage::Done };
            return (f, finished());
        }
        let mn = clone_text(&self.s.mainnet_secret_key);
        let tn = clone_text(&self.s.testnet_secret_key);
        if mn.is_none() && tn.is_none() {
            let f = SaveAllFlow { language: lang, prf_key: None, mainnet_secret: None, testnet_secret: None, stage: SaveAllStage::Done };
            return (f, log_only(ui_i18n(lang).nothing_to_save().to_owned()));
        }
        if localhost || !bio {
            let f = SaveAllFlow { language: lang, prf_key: None, mainnet_secret: mn, testnet_secret: tn, stage: SaveAllStage::Done };
            return save_all_next(f, NetworkEnvironment::Production, no_logs());
        }
        match clone_text(&self.s.prf_key) {
            Some(k) => {
                let f = SaveAllFlow { language: lang, prf_key: Some(k), mainnet_secret: mn, testnet_secret: tn, stage: SaveAllStage::Done };
                save_all_next(f, NetworkEnvironment::Production, no_logs())
            },
            None => {
                let f = SaveAllFlow { language: lang, prf_key: None, mainnet_secret: mn, testnet_secret: tn, stage: SaveAllStage::AwaitPrf };
                (f, ask(Request::PasskeyInit))
            },
        }
    }

    /// Continue saving both keys with the answer `reply`.
    pub fn save_all_to_store_step(&mut self, flow: SaveAllFlow, reply: Reply) -> (r: (SaveAllFlow, Step))
        ensures
            save_all_stepped(old(self).s, final(self).s, flow, reply, r),
    {
        let lang = flow.language;
        let i18n = ui_i18n(lang);
        match (flow.stage, reply) {
            (SaveAllStage::AwaitPrf, Reply::Passkey(outcome)) => match outcome {
                PasskeyOutcome::Done { success: true, prf_key: Some(k), .. } => {
                    self.s.prf_key = Some(k.clone());
                    save_all_next(SaveAllFlow { prf_key: Some(k), ..flow }, NetworkEnvironment::Production, no_logs())
                },
                PasskeyOutcome::Done { success: true, prf_key: None, .. } => (SaveAllFlow { stage: SaveAllStage::Done, ..flow }, log_only(i18n.fmt_error(i18n.no_prf_key()))),
                _ => (SaveAllFlow { stage: SaveAllStage::Done, ..flow }, log_only(i18n.fmt_error("Authentication failed"))),
            },
            (SaveAllStage::AwaitEncrypt(net), Reply::Text(Ok(encrypted))) => {
                let store = new_store_for_network(lang, net);
                (SaveAllFlow { stage: SaveAllStage::AwaitSave(net), ..flow }, ask(Request::StoreSave { store, data: encrypted }))
            },
            (SaveAllStage::AwaitSave(net), Reply::Saved(Ok(_))) => match net {
                NetworkEnvironment::Production => save_all_next(flow, NetworkEnvironment::Test, one_log("[save_all] Mainnet key saved".to_owned())),
                NetworkEnvironment::Test => {
                    let mut logs = one_log("[save_all] Testnet key saved".to_owned());
                    let ghost before = texts(logs@);
                    assert(before == seq![saved_line(net)]);
                    logs.push(i18n.save_success().to_owned());
                    assert(texts(logs@) =~= before.push(ui_str(lang, UiStr::SaveSuccess)));
                    assert(texts(logs@) =~= seq![saved_line(net), ui_str(lang, UiStr::SaveSuccess)]);
                    (SaveAllFlow { stage: SaveAllStage::Done, ..flow }, Step { logs, request: Request::Finished })
                },
            },
            (SaveAllStage::AwaitEncrypt(_), Reply::Text(Err(e))) | (SaveAllStage::AwaitSave(_), Reply::Saved(Err(e))) =>
                (SaveAllFlow { stage: SaveAllStage::Done, ..flow }, log_only(i18n.fmt_error(e.as_str()))),
            _ => (SaveAllFlow { stage: SaveAllStage::Done, ..flow }, finished()),
        }
    }
}


/// Whether `r` asks flow `f` to load the mainnet store, after lines `logs`.
pub open spec fn load_all_loads_mainnet(f: LoadAllFlow, r: (LoadAllFlow, Step), logs: Seq<Seq<char>>) -> bool {
    &&& r.0 == (LoadAllFlow { stage: LoadAllStage::AwaitLoad(NetworkEnvironment::Production), ..f })
    &&& texts(r.1.logs@) == logs
    &&& (r.1.request matches Request::StoreLoad { store } && store_is(store, network_account(NetworkEnvironment::Production), f.language))
}

fn load_all_mainnet(f: LoadAllFlow, logs: Vec<String>) -> (r: (LoadAllFlow, Step))
    ensures
        load_all_loads_mainnet(f, r, texts(logs@)),
{
    let store = new_store_for_network(f.language, NetworkEnvironment::Production);
    (LoadAllFlow { stage: LoadAllStage::AwaitLoad(NetworkEnvironment::Production), ..f }, Step { logs, request: Request::StoreLoad { store } })
}

fn load_all_legacy_text(f: LoadAllFlow, d: &str) -> (r: (LoadAllFlow, Step))
    requires
        d@.len() > 0,
    ensures
        ({
            let (net, secret) = parse_stored_secret(d@, NetworkEnvironment::Production);
            &&& r.0.language == f.language
            &&& r.0.prf_key == f.prf_key
            &&& texts(r.1.logs@) == Seq::<Seq<char>>::empty()
            &&& r.0.stage is AwaitLegacyKey
            &&& r.0.network == net
            &&& r.0.secret@ == secret
            &&& (r.1.request matches Request::DerivePublicKey { network, language, secret: s } && network == net && language == f.language && s@ == secret)
        }),
{
    let (net, secret) = read_stored_secret(d, NetworkEnvironment::Production);
    let request = Request::DerivePublicKey { network: net, language: f.language, secret: secret.clone() };
    (LoadAllFlow { stage: LoadAllStage::AwaitLegacyKey, network: net, secret, ..f }, ask(request))
}

/// What one step of loading both keys does: flow `flow` takes the answer `reply`, from
/// state `before` to `after`, and goes on with `r`.
pub open spec fn load_all_stepped(before: WalletState, after: WalletState, flow: LoadAllFlow, reply: Reply, r: (LoadAllFlow, Step)) -> bool {
    match (flow.stage, reply) {
        (LoadAllStage::AwaitPrf, Reply::Passkey(outcome)) => match passkey_prf(outcome) {
            Some(k) => {
                &&& after == (WalletState { prf_key: Some(k), ..before })
                &&& load_all_loads_mainnet(LoadAllFlow { prf_key: Some(k), ..flow }, r, Seq::empty())
            },
            None => {
                &&& after == before
                &&& r.0 == (LoadAllFlow { stage: LoadAllStage::Done, ..flow })
                &&& texts(r.1.logs@) == seq![ui_fmt_with(flow.language, UiFmt::FmtError, match outcome {
                    PasskeyOutcome::Done { success: true, .. } => ui_str(flow.language, UiStr::NoPrfKey),
                    _ => "Authentication failed"@,
                })]
                &&& r.1.request is Finished
            },
        },
        (LoadAllStage::AwaitLoad(net), Reply::Text(Ok(data))) => {
            &&& after == before
            &&& match flow.prf_key {
                Some(k) => r.0 == (LoadAllFlow { stage: LoadAllStage::AwaitDecrypt(net), ..flow }) && r.1.logs@.len() == 0 && r.1.request == Request::Decrypt { data, prf_key: k },
                None => load_all_read(flow, net, data@, r, Seq::empty()),
            }
        },
        (LoadAllStage::AwaitLoad(net), Reply::Text(Err(_))) => after == before && load_all_moves_on(flow, net, r, Seq::empty()),
        (LoadAllStage::AwaitDecrypt(net), Reply::Text(Ok(d))) => after == before && load_all_read(flow, net, d@, r, Seq::empty()),
        (LoadAllStage::AwaitDecrypt(net), Reply::Text(Err(e))) => after == before
            && load_all_moves_on(flow, net, r, seq![ui_fmt_with(flow.language, UiFmt::FmtError, e@)]),
        (LoadAllStage::AwaitKey(net), Reply::PublicKey(Some(pk))) => {
            &&& after == with_loaded_network_key(before, net, pk, flow.secret)
            &&& load_all_moves_on(flow, net, r, seq![loaded_line(net)])
        },
        (LoadAllStage::AwaitKey(net), Reply::PublicKey(None)) => after == before && load_all_moves_on(flow, net, r, Seq::empty()),
        (LoadAllStage::AwaitLegacyLoad, Reply::Text(Ok(data))) => match flow.prf_key {
            Some(k) => after == before && r.0 == (LoadAllFlow { stage: LoadAllStage::AwaitLegacyDecrypt, ..flow }) && r.1.logs@.len() == 0 && r.1.request == Request::Decrypt { data, prf_key: k },
            None => load_all_legacy_read(before, after, flow, data@, r, Seq::empty()),
        },
        (LoadAllStage::AwaitLegacyLoad, Reply::Text(Err(_))) => load_all_ends(before, after, flow, r, Seq::empty()),
        (LoadAllStage::AwaitLegacyDecrypt, Reply::Text(Ok(d))) => load_all_legacy_read(before, after, flow, d@, r, Seq::empty()),
        (LoadAllStage::AwaitLegacyDecrypt, Reply::Text(Err(_))) => load_all_ends(before, after, flow, r, Seq::empty()),
        (LoadAllStage::AwaitLegacyKey, Reply::PublicKey(Some(pk))) => if public_key_of(before, flow.network) is None {
            load_all_ends(with_loaded_network_key(before, flow.network, pk, flow.secret), after, flow, r, seq![migrated_line(flow.network)])
        } else {
            load_all_ends(before, after, flow, r, Seq::empty())
        },
        (LoadAllStage::AwaitLegacyKey, Reply::PublicKey(None)) => load_all_ends(before, after, flow, r, Seq::empty()),
        _ => after == before && r.0 == (LoadAllFlow { stage: LoadAllStage::Done, ..flow }) && r.1.logs@.len() == 0 && r.1.request is Finished,
    }
}

/// What starting to load both keys does: from state `before` to `after`, returning flow
/// and step `r`; `localhost` tells whether the app runs on localhost.
pub open spec fn load_all_begun(before: WalletState, after: WalletState, localhost: bool, r: (LoadAllFlow, Step)) -> bool {
    &&& after == before
    &&& r.0.language == before.language
    &&& if localhost || !before.biometric_enabled {
        r.0.prf_key is None && load_all_loads_mainnet(r.0, r, seq![ui_str(before.language, UiStr::LoadingStarted)])
    } else {
        match before.prf_key {
            Some(k) => r.0.prf_key == Some(k) && load_all_loads_mainnet(r.0, r, seq![ui_str(before.language, UiStr::LoadingStarted)]),
            None => {
                &&& r.0.stage is AwaitPrf
                &&& texts(r.1.logs@) == seq![ui_str(before.language, UiStr::LoadingStarted)]
                &&& r.1.request is PasskeyInit
            },
        }
    }
}

/// Whether the active key of `s` follows its network slots: the mainnet key (and its
/// secret) when there is one, else the testnet key.
pub open spec fn key_follows_slots(s: WalletState) -> bool {
    match s.mainnet_public_key {
        Some(pk) => s.public_key == Some(pk) && s.secret_key_hidden == s.mainnet_secret_key,
        None => match s.testnet_public_key {
            Some(pk) => s.public_key == Some(pk) && s.secret_key_hidden == s.testnet_secret_key,
            None => true,
        },
    }
}

/// Whether `reply` answers what a load of both keys at `stage` asked for: a passkey
/// outcome, a text (loaded or decrypted), or a public key.
pub open spec fn load_all_answers(stage: LoadAllStage, reply: Reply) -> bool {
    match (stage, reply) {
        (LoadAllStage::AwaitPrf, Reply::Passkey(_)) => true,
        (LoadAllStage::AwaitLoad(_), Reply::Text(_)) => true,
        (LoadAllStage::AwaitDecrypt(_), Reply::Text(_)) => true,
        (LoadAllStage::AwaitLegacyLoad, Reply::Text(_)) => true,
        (LoadAllStage::AwaitLegacyDecrypt, Reply::Text(_)) => true,
        (LoadAllStage::AwaitKey(_), Reply::PublicKey(_)) => true,
        (LoadAllStage::AwaitLegacyKey, Reply::PublicKey(_)) => true,
        _ => false,
    }
}

/// Synchronising makes the active key follow the slots.
pub proof fn lemma_synced_follows_slots(s: WalletState)
    ensures
        key_follows_slots(synced(s)),
        synced(synced(s)) == synced(s),
{
}

/// Loading both keys ends with the active key synchronised: once past the passkey, a
/// step that answers what was asked and ends the load leaves the state `synced` (of the
/// state before it, with a migrated old key where there was one), so the mainnet key is
/// active when there is one, and else the testnet key.
pub proof fn lemma_load_all_end_follows_slots(
    before: WalletState,
    after: WalletState,
    flow: LoadAllFlow,
    reply: Reply,
    r: (LoadAllFlow, Step),
)
    requires
        load_all_stepped(before, after, flow, reply, r),
        load_all_answers(flow.stage, reply),
        !(flow.stage is AwaitPrf),
        r.1.request is Finished,
    ensures
        key_follows_slots(after),
        after == synced(after),
        match (flow.stage, reply) {
            (LoadAllStage::AwaitLegacyKey, Reply::PublicKey(Some(pk))) => if public_key_of(before, flow.network) is None {
                after == synced(with_loaded_network_key(before, flow.network, pk, flow.secret))
            } else {
                after == synced(before)
            },
            _ => after == synced(before),
        },
{
    match (flow.stage, reply) {
        (LoadAllStage::AwaitLegacyKey, Reply::PublicKey(Some(pk))) => {
            if public_key_of(before, flow.network) is None {
                lemma_synced_follows_slots(with_loaded_network_key(before, flow.network, pk, flow.secret));
            } else {
                lemma_synced_follows_slots(before);
            }
        },
        _ => {
            lemma_synced_follows_slots(before);
        },
    }
}

/// What saving both keys writes, loading both reads back, over whole runs on localhost.
/// Saving the mainnet secret `a` and the testnet secret `b` writes `a` to the mainnet
/// store and `b` to the testnet store. Loading then, when each store answers with what
/// was written to it, the ledger answers the public key `pa` of `a` and `pb` of `b`,
/// and the old single store answers anything, ends with `a` and `pa` in the mainnet
/// slots, `b` and `pb` in the testnet slots, and the mainnet key active. (A secret that
/// begins with its network's prefix, `mn:` or `tn:`, would lose it; valid secrets never
/// do.)
pub proof fn lemma_both_keys_load_back(
    a: String,
    b: String,
    s0: WalletState,
    s1: WalletState,
    sv0: (SaveAllFlow, Step),
    s2: WalletState,
    sv1: (SaveAllFlow, Step),
    s3: WalletState,
    sv2: (SaveAllFlow, Step),
    saved_mainnet: String,
    saved_testnet: String,
    pa: String,
    pb: String,
    legacy: Result<String, String>,
    legacy_key: Option<String>,
    t0: WalletState,
    t1: WalletState,
    ld0: (LoadAllFlow, Step),
    t2: WalletState,
    ld1: (LoadAllFlow, Step),
    t3: WalletState,
    ld2: (LoadAllFlow, Step),
    t4: WalletState,
    ld3: (LoadAllFlow, Step),
    t5: WalletState,
    ld4: (LoadAllFlow, Step),
    t6: WalletState,
    ld5: (LoadAllFlow, Step),
    t7: WalletState,
    ld6: (LoadAllFlow, Step),
)
    requires
        s0.mainnet_secret_key == Some(a),
        s0.testnet_secret_key == Some(b),
        a@.len() > 0,
        b@.len() > 0,
        strip_prefix(a@, network_prefix(NetworkEnvironment::Production)) is None,
        strip_prefix(b@, network_prefix(NetworkEnvironment::Test)) is None,
        save_all_started(s0, s1, true, sv0),
        sv0.1.request matches Request::StoreSave { data, .. } && data == saved_mainnet,
        save_all_stepped(s1, s2, sv0.0, Reply::Saved(Ok(())), sv1),
        sv1.1.request matches Request::StoreSave { data, .. } && data == saved_testnet,
        save_all_stepped(s2, s3, sv1.0, Reply::Saved(Ok(())), sv2),
        load_all_begun(t0, t1, true, ld0),
        load_all_stepped(t1, t2, ld0.0, Reply::Text(Ok(saved_mainnet)), ld1),
        load_all_stepped(t2, t3, ld1.0, Reply::PublicKey(Some(pa)), ld2),
        load_all_stepped(t3, t4, ld2.0, Reply::Text(Ok(saved_testnet)), ld3),
        load_all_stepped(t4, t5, ld3.0, Reply::PublicKey(Some(pb)), ld4),
        load_all_stepped(t5, t6, ld4.0, Reply::Text(legacy), ld5),
        ld5.1.request is Finished || load_all_stepped(t6, t7, ld5.0, Reply::PublicKey(legacy_key), ld6),
    ensures
        saved_mainnet == a,
        saved_testnet == b,
        sv0.1.request matches Request::StoreSave { store, .. } && store_is(store, network_account(NetworkEnvironment::Production), s0.language),
        sv1.1.request matches Request::StoreSave { store, .. } && store_is(store, network_account(NetworkEnvironment::Test), s0.language),
        sv2.1.request is Finished,
        ld0.1.request matches Request::StoreLoad { store } && store_is(store, network_account(NetworkEnvironment::Production), t0.language),
        ld1.1.request matches Request::DerivePublicKey { network, secret, .. } && network == NetworkEnvironment::Production && secret@ == a@,
        ld2.1.request matches Request::StoreLoad { store } && store_is(store, network_account(NetworkEnvironment::Test), t0.language),
        ld3.1.request matches Request::DerivePublicKey { network, secret, .. } && network == NetworkEnvironment::Test && secret@ == b@,
        !(ld5.1.request is Finished) ==> ld6.1.request is Finished,
        ({
            let end = if ld5.1.request is Finished { t6 } else { t7 };
            &&& end.mainnet_secret_key matches Some(x) && x@ == a@
            &&& end.testnet_secret_key matches Some(y) && y@ == b@
            &&& end.mainnet_public_key == Some(pa)
            &&& end.testnet_public_key == Some(pb)
            &&& end.public_key == Some(pa)
            &&& end.secret_key_hidden matches Some(z) && z@ == a@
        }),
{
    assert(sv0.0.mainnet_secret == Some(a) && sv0.0.testnet_secret == Some(b) && sv0.0.prf_key is None);
    assert(sv0.0.stage == SaveAllStage::AwaitSave(NetworkEnvironment::Production));
    assert(sv1.0.stage == SaveAllStage::AwaitSave(NetworkEnvironment::Test));
    assert(ld0.0.prf_key is None && ld0.0.stage == LoadAllStage::AwaitLoad(NetworkEnvironment::Production));
    assert(ld1.0.stage == LoadAllStage::AwaitKey(NetworkEnvironment::Production) && ld1.0.prf_key is None && ld1.0.secret@ == a@);
    assert(t3 == with_loaded_network_key(t2, NetworkEnvironment::Production, pa, ld1.0.secret));
    assert(ld2.0.stage == LoadAllStage::AwaitLoad(NetworkEnvironment::Test) && ld2.0.prf_key is None);
    assert(ld3.0.stage == LoadAllStage::AwaitKey(NetworkEnvironment::Test) && ld3.0.prf_key is None && ld3.0.secret@ == b@);
    assert(t5 == with_loaded_network_key(t4, NetworkEnvironment::Test, pb, ld3.0.secret));
    assert(ld4.0.stage is AwaitLegacyLoad && ld4.0.prf_key is None);
    if ld5.1.request is Finished {
        assert(t6 == synced(t5));
    } else {
        assert(t6 == t5);
        assert(ld5.0.stage is AwaitLegacyKey);
        assert(t7 == synced(t6));
    }
}

/// Whether step `st` saves `data` in the store of network `net`, with messages in `lang`.
pub open spec fn saves_in(st: Step, net: NetworkEnvironment, data: String, lang: Language) -> bool {
    st.request matches Request::StoreSave { store, data: d } && store_is(store, network_account(net), lang) && d == data
}

/// Saving both keys writes every secret that is present, over a whole run on localhost
/// where every write succeeds: the mainnet secret, if any, is written first to the
/// mainnet store, then the testnet secret, if any, to the testnet store, whether or not
/// the other network has one; success is reported only after the last write.
pub proof fn lemma_save_all_writes_every_secret(
    s0: WalletState,
    s1: WalletState,
    sv0: (SaveAllFlow, Step),
    s2: WalletState,
    sv1: (SaveAllFlow, Step),
    s3: WalletState,
    sv2: (SaveAllFlow, Step),
)
    requires
        save_all_started(s0, s1, true, sv0),
        sv0.1.request is StoreSave ==> save_all_stepped(s1, s2, sv0.0, Reply::Saved(Ok(())), sv1),
        sv1.1.request is StoreSave ==> save_all_stepped(s2, s3, sv1.0, Reply::Saved(Ok(())), sv2),
    ensures
        s0.mainnet_secret_key matches Some(a) ==> saves_in(sv0.1, NetworkEnvironment::Production, a, s0.language),
        s0.mainnet_secret_key is None && s0.testnet_secret_key is Some ==> {
            &&& saves_in(sv0.1, NetworkEnvironment::Test, s0.testnet_secret_key->0, s0.language)
            &&& sv1.1.request is Finished
            &&& texts(sv1.1.logs@) == seq![saved_line(NetworkEnvironment::Test), ui_str(s0.language, UiStr::SaveSuccess)]
        },
        s0.mainnet_secret_key is Some && s0.testnet_secret_key is Some ==> {
            &&& saves_in(sv1.1, NetworkEnvironment::Test, s0.testnet_secret_key->0, s0.language)
            &&& sv2.1.request is Finished
            &&& texts(sv2.1.logs@) == seq![saved_line(NetworkEnvironment::Test), ui_str(s0.language, UiStr::SaveSuccess)]
        },
        s0.mainnet_secret_key is Some && s0.testnet_secret_key is None ==> {
            &&& sv1.1.request is Finished
            &&& texts(sv1.1.logs@) == seq![saved_line(NetworkEnvironment::Production), ui_str(s0.language, UiStr::SaveSuccess)]
        },
        s0.mainnet_secret_key is None && s0.testnet_secret_key is None ==> sv0.1.request is Finished,
{
    if s0.mainnet_secret_key is Some || s0.testnet_secret_key is Some {
        assert(sv0.0.language == s0.language && sv0.0.prf_key is None);
        assert(sv0.0.mainnet_secret == s0.mainnet_secret_key && sv0.0.testnet_secret == s0.testnet_secret_key);
        if s0.mainnet_secret_key is Some {
            assert(sv0.0.stage == SaveAllStage::AwaitSave(NetworkEnvironment::Production));
            if s0.testnet_secret_key is Some {
                assert(sv1.0.stage == SaveAllStage::AwaitSave(NetworkEnvironment::Test));
                assert(sv1.0 == (SaveAllFlow { stage: SaveAllStage::AwaitSave(NetworkEnvironment::Test), ..sv0.0 }));
            } else {
                assert(texts(sv1.1.logs@) =~= seq![saved_line(NetworkEnvironment::Production)].push(ui_str(s0.language, UiStr::SaveSuccess)));
            }
        } else {
            assert(sv0.0.stage == SaveAllStage::AwaitSave(NetworkEnvironment::Test));
        }
    }
}

impl AppController {
    /// Load the key of each network from its store (the mainnet key becomes the active
    /// one), then the key of the single store of earlier versions for a network that has
    /// none yet, decrypting with the passkey when biometric identification is on (except
    /// on localhost).
    pub fn load_all_from_store(&mut self, localhost: bool) -> (r: (LoadAllFlow, Step))
        ensures
            load_all_begun(old(self).s, final(self).s, localhost, r),
    {
        let lang = self.s.language;
        let logs = one_log(ui_i18n(lang).loading_started().to_owned());
        let prf = if localhost || !self.s.biometric_enabled { None } else { clone_text(&self.s.prf_key) };
        let f = LoadAllFlow { language: lang, prf_key: prf, network: NetworkEnvironment::Production, secret: String::new(), stage: LoadAllStage::AwaitPrf };
        if localhost || !self.s.biometric_enabled || f.prf_key.is_some() {
            load_all_mainnet(f, logs)
        } else {
            (f, Step { logs, request: Request::PasskeyInit })
        }
    }

    fn end_load_all(&mut self, f: LoadAllFlow, logs: Vec<String>) -> (r: (LoadAllFlow, Step))
        ensures
            load_all_ends(old(self).s, final(self).s, f, r, texts(logs@)),
    {
        if let Some(pk) = clone_text(&self.s.mainnet_public_key) {
            self.s.public_key = Some(pk);
            crate::text::replace_secret(&mut self.s.secret_key_hidden, clone_text(&self.s.mainnet_secret_key));
        } else if let Some(pk) = clone_text(&self.s.testnet_public_key) {
            self.s.public_key = Some(pk);
            crate::text::replace_secret(&mut self.s.secret_key_hidden, clone_text(&self.s.testnet_secret_key));
        }
        let mut logs = logs;
        let ghost before = texts(logs@);
        logs.push(ui_i18n(f.language).ui_updated_with_key().to_owned());
        assert(texts(logs@) =~= before.push(ui_str(f.language, UiStr::UiUpdatedWithKey)));
        (LoadAllFlow { stage: LoadAllStage::Done, ..f }, Step { logs, request: Request::Finished })
    }

    fn keep_network_key(&mut self, net: NetworkEnvironment, pk: String, sk: String)
        ensures
            final(self).s == with_loaded_network_key(old(self).s, net, pk, sk),
    {
        match net {
            NetworkEnvironment::Production => {
                self.s.mainnet_public_key = Some(pk.clone());
                crate::text::replace_secret(&mut self.s.mainnet_secret_key, Some(sk));
                self.s.public_key = Some(pk);
            },
            NetworkEnvironment::Test => {
                self.s.testnet_public_key = Some(pk);
                crate::text::replace_secret(&mut self.s.testnet_secret_key, Some(sk));
            },
        }
    }

    /// Continue loading both keys with the answer `reply`.
    #[verifier::rlimit(60)]
    pub fn load_all_from_store_step(&mut self, flow: LoadAllFlow, reply: Reply) -> (r: (LoadAllFlow, Step))
        ensures
            load_all_stepped(old(self).s, final(self).s, flow, reply, r),
    {
        let lang = flow.language;
        let i18n = ui_i18n(lang);
        match (flow.stage, reply) {
            (LoadAllStage::AwaitPrf, Reply::Passkey(outcome)) => match outcome {
                PasskeyOutcome::Done { success: true, prf_key: Some(k), .. } => {
                    self.s.prf_key = Some(k.clone());
                    load_all_mainnet(LoadAllFlow { prf_key: Some(k), ..flow }, no_logs())
                },
                PasskeyOutcome::Done { success: true, prf_key: None, .. } => (LoadAllFlow { stage: LoadAllStage::Done, ..flow }, log_only(i18n.fmt_error(i18n.no_prf_key()))),
                _ => (LoadAllFlow { stage: LoadAllStage::Done, ..flow }, log_only(i18n.fmt_error("Authentication failed"))),
            },
            (LoadAllStage::AwaitLoad(net), Reply::Text(Ok(data))) => match clone_text(&flow.prf_key) {
                Some(k) => (LoadAllFlow { stage: LoadAllStage::AwaitDecrypt(net), ..flow }, ask(Request::Decrypt { data, prf_key: k })),
                None => load_all_read_text(flow, net, data.as_str(), no_logs()),
            },
            (LoadAllStage::AwaitLoad(net), Reply::Text(Err(_))) => load_all_next(flow, net, no_logs()),
            (LoadAllStage::AwaitDecrypt(net), Reply::Text(Ok(d))) => load_all_read_text(flow, net, d.as_str(), no_logs()),
            (LoadAllStage::AwaitDecrypt(net), Reply::Text(Err(e))) => load_all_next(flow, net, one_log(i18n.fmt_error(e.as_str()))),
            (LoadAllStage::AwaitKey(net), Reply::PublicKey(Some(pk))) => {
                let sk = flow.secret.clone();
                self.keep_network_key(net, pk, sk);
                let line = match net {
                    NetworkEnvironment::Production => "[load_all] Mainnet key loaded".to_owned(),
                    NetworkEnvironment::Test => "[load_all] Testnet key loaded".to_owned(),
                };
                load_all_next(flow, net, one_log(line))
            },
            (LoadAllStage::AwaitKey(net), Reply::PublicKey(None)) => load_all_next(flow, net, no_logs()),
            (LoadAllStage::AwaitLegacyLoad, Reply::Text(Ok(data))) => match clone_text(&flow.prf_key) {
                Some(k) => (LoadAllFlow { stage: LoadAllStage::AwaitLegacyDecrypt, ..flow }, ask(Request::Decrypt { data, prf_key: k })),
                None => if data.as_str().unicode_len() == 0 {
                    self.end_load_all(flow, no_logs())
                } else {
                    load_all_legacy_text(flow, data.as_str())
                },
            },
            (LoadAllStage::AwaitLegacyDecrypt, Reply::Text(Ok(d))) => if d.as_str().unicode_len() == 0 {
                self.end_load_all(flow, no_logs())
            } else {
                load_all_legacy_text(flow, d.as_str())
            },
            (LoadAllStage::AwaitLegacyLoad, Reply::Text(Err(_))) | (LoadAllStage::AwaitLegacyDecrypt, Reply::Text(Err(_))) => self.end_load_all(flow, no_logs()),
            (LoadAllStage::AwaitLegacyKey, Reply::PublicKey(Some(pk))) => {
                let net = flow.network;
                let free = match net {
                    NetworkEnvironment::Production => self.s.mainnet_public_key.is_none(),
                    NetworkEnvironment::Test => self.s.testnet_public_key.is_none(),
                };
                if free {
                    let sk = flow.secret.clone();
                    self.keep_network_key(net, pk, sk);
                    let line = match net {
                        NetworkEnvironment::Production => "[load_all] Migrated legacy key as mainnet".to_owned(),
                        NetworkEnvironment::Test => "[load_all] Migrated legacy key as testnet".to_owned(),
                    };
                    self.end_load_all(flow, one_log(line))
                } else {
                    self.end_load_all(flow, no_logs())
                }
            },
            (LoadAllStage::AwaitLegacyKey, Reply::PublicKey(None)) => self.end_load_all(flow, no_logs()),
            _ => (LoadAllFlow { stage: LoadAllStage::Done, ..flow }, finished()),
        }
    }
}

} // verus!
