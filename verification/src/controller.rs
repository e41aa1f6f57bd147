//! The wallet's actions: how each user action and each answer from the outside
//! world changes the wallet state.
//!
//! An action that needs the outside world (the ledger, the secret store, the passkey,
//! the graph database, the camera) is split in two: the first method changes the state
//! and says what to ask for; a second method takes the answer.

use vstd::prelude::*;
use crate::language::{Language, NetworkEnvironment, language_for_code, language_from_code, other_network};
use crate::state::{AuthState, WalletState};
use crate::tabs::Tab;
use crate::status::TxStatus;
use crate::i18n::{UiI18n, UiStr, UiFmt, ui_str, ui_fmt_with, ui_i18n};
use crate::text::{trim, trim_str, concat, clone_text, str_equal, text_is, parse_u64, parse_u64_str, decimal_nat, decimal_u64, lemma_decimal_untrimmed, lemma_parse_decimal_roundtrip};
use crate::actions::{faucet_outcome, submission_outcome, xdr_outcome, submit_transaction, activate_test_account, fetch_and_generate_xdr, import_keypair};

verus! {

/// What a passkey ceremony (registration or authentication) answered: it ran, with
/// success or not, possibly yielding a PRF key and an error text; or it could not run.
pub enum PasskeyOutcome {
    Done { success: bool, prf_key: Option<String>, error: Option<String> },
    Failed(String),
}

/// `s` with the active public key recorded in the slot of the current network.
pub open spec fn with_tracked_key(s: WalletState) -> WalletState {
    match s.current_network {
        NetworkEnvironment::Production => WalletState { mainnet_public_key: s.public_key, ..s },
        NetworkEnvironment::Test => WalletState { testnet_public_key: s.public_key, ..s },
    }
}

/// `s` switched to network `next`, with the generated envelope `xdr` (which is empty).
pub open spec fn switched(s: WalletState, next: NetworkEnvironment, xdr: String) -> WalletState {
    WalletState { current_network: next, generated_xdr: xdr, ..s }
}

/// What resolving a pending network switch does: the switch happens (and the generated
/// envelope is dropped) if one is pending, and nothing is pending afterwards.
pub open spec fn switch_confirmed(before: WalletState, after: WalletState) -> bool {
    match before.network_switch_pending {
        Some(next) => {
            &&& after == (WalletState { network_switch_pending: None, ..switched(before, next, after.generated_xdr) })
            &&& after.generated_xdr@ == Seq::<char>::empty()
        },
        None => after == before,
    }
}

/// What enabling biometric identification asks for.
pub enum BiometricStep {
    /// It is already on: nothing to do.
    Nothing,
    /// It is on now; the preference is to be saved.
    PersistEnabled,
    /// A passkey is to be registered first.
    Register,
}

/// A faucet call to make: fund `public_key` on `network`.
pub struct FaucetRequest {
    pub public_key: String,
    pub network: NetworkEnvironment,
    pub language: Language,
}

/// A ledger call that takes a secret key: build a self-payment envelope, ping the
/// contract, and the like.
pub struct SecretRequest {
    pub secret: String,
    pub network: NetworkEnvironment,
    pub language: Language,
}

/// A signed envelope to submit on `network`.
pub struct SubmitRequest {
    pub xdr: String,
    pub network: NetworkEnvironment,
    pub language: Language,
}

/// A lock or unlock of `amount` ZSOZSO with the proof-of-zsozso contract.
pub struct LockRequest {
    pub secret: String,
    pub amount: u64,
    pub network: NetworkEnvironment,
    pub language: Language,
}

/// The amount typed in the lock field, when it is a positive whole number.
pub open spec fn lock_amount_value(typed: Seq<char>) -> Option<u64> {
    match parse_u64(trim(typed)) {
        Some(v) => if v > 0 { Some(v) } else { None },
        None => None,
    }
}

/// Typing a positive whole number in the amount field asks to lock (or unlock)
/// exactly that amount.
pub proof fn lemma_typed_amount_is_taken(n: u64)
    requires
        n > 0,
    ensures
        lock_amount_value(decimal_nat(n as nat)) == Some(n),
{
    lemma_decimal_untrimmed(n as nat);
    lemma_parse_decimal_roundtrip(n);
}

/// `s` with a switch to the other network waiting for the user's decision.
pub open spec fn switch_requested(s: WalletState) -> WalletState {
    WalletState { network_switch_pending: Some(other_network(s.current_network)), ..s }
}

/// A network switch that waits for the user and is then cancelled changes nothing but
/// the pending mark: the network, the keys and the envelope stay as they were.
pub proof fn lemma_cancelled_switch_changes_nothing(s: WalletState)
    ensures
        (WalletState { network_switch_pending: None, ..switch_requested(s) }) == (WalletState { network_switch_pending: None, ..s }),
{
}

/// A network switch that waits for the user and is then confirmed reaches the other
/// network, keeps the keys in memory, drops the generated envelope and leaves nothing
/// pending: it does what a switch without a secret in memory does at once.
pub proof fn lemma_confirmed_switch_reaches_other_network(s: WalletState, after: WalletState)
    requires
        switch_confirmed(switch_requested(s), after),
    ensures
        after == switched(WalletState { network_switch_pending: None, ..s }, other_network(s.current_network), after.generated_xdr),
        after.generated_xdr@ == Seq::<char>::empty(),
        after.current_network != s.current_network,
{
}

/// The secret key slot of network `net`.
pub open spec fn secret_of(s: WalletState, net: NetworkEnvironment) -> Option<String> {
    match net {
        NetworkEnvironment::Production => s.mainnet_secret_key,
        NetworkEnvironment::Test => s.testnet_secret_key,
    }
}

/// The secret of a network is the one held in that network's own slot: the testnet
/// secret for the test network, the mainnet secret for the main network; and the two
/// networks' secrets are told apart.
pub proof fn lemma_secret_of_network_slot(s: WalletState, net: NetworkEnvironment)
    ensures
        net == NetworkEnvironment::Test ==> secret_of(s, net) == s.testnet_secret_key,
        net == NetworkEnvironment::Production ==> secret_of(s, net) == s.mainnet_secret_key,
        s.mainnet_secret_key != s.testnet_secret_key ==> secret_of(s, NetworkEnvironment::Production) != secret_of(s, NetworkEnvironment::Test),
{
}

/// The import field of network `net`.
pub open spec fn input_of(s: WalletState, net: NetworkEnvironment) -> String {
    match net {
        NetworkEnvironment::Production => s.mainnet_input_value,
        NetworkEnvironment::Test => s.testnet_input_value,
    }
}

/// `s` with key pair (`pk`, `sk`) in the slots of network `net`, and `pk` active.
pub open spec fn with_network_key(
    s: WalletState,
    net: NetworkEnvironment,
    pk: String,
    sk: String,
) -> WalletState {
    match net {
        NetworkEnvironment::Production => WalletState {
            mainnet_public_key: Some(pk),
            mainnet_secret_key: Some(sk),
            public_key: Some(pk),
            ..s
        },
        NetworkEnvironment::Test => WalletState {
            testnet_public_key: Some(pk),
            testnet_secret_key: Some(sk),
            public_key: Some(pk),
            ..s
        },
    }
}

/// `s` with the import field of network `net` set to `v`.
pub open spec fn with_input(s: WalletState, net: NetworkEnvironment, v: String) -> WalletState {
    match net {
        NetworkEnvironment::Production => WalletState { mainnet_input_value: v, ..s },
        NetworkEnvironment::Test => WalletState { testnet_input_value: v, ..s },
    }
}

/// `s` with the secret of network `net` shown.
pub open spec fn with_secret_shown(s: WalletState, net: NetworkEnvironment) -> WalletState {
    match net {
        NetworkEnvironment::Production => WalletState { mainnet_show_secret: true, ..s },
        NetworkEnvironment::Test => WalletState { testnet_show_secret: true, ..s },
    }
}

/// What starting a lock (or unlock) with message `busy` does to state `before`.
pub open spec fn lock_started(
    before: WalletState,
    after: WalletState,
    r: Option<LockRequest>,
    busy: UiStr,
) -> bool {
    &&& after == (WalletState { zs_status: after.zs_status, ..before })
    &&& match lock_amount_value(before.lock_amount@) {
        None => r is None && text_is(after.zs_status, ui_str(before.language, UiStr::ZsInvalidAmount)),
        Some(amount) => match before.secret_key_hidden {
            None => r is None && text_is(after.zs_status, ui_str(before.language, UiStr::ZsNoKey)),
            Some(secret) => r matches Some(req) && {
                &&& req.secret == secret
                &&& req.amount == amount
                &&& req.network == before.current_network
                &&& req.language == before.language
                &&& text_is(after.zs_status, ui_str(before.language, busy))
            },
        },
    }
}

/// What the answer `result` to lock request `req` does to state `before`.
pub open spec fn lock_finished(
    before: WalletState,
    after: WalletState,
    req: &LockRequest,
    result: Result<(), String>,
    ok: UiFmt,
    failed: UiFmt,
) -> bool {
    match result {
        Ok(_) => {
            &&& after == (WalletState { zs_status: after.zs_status, lock_amount: after.lock_amount, ..before })
            &&& after.lock_amount@ == Seq::<char>::empty()
            &&& text_is(after.zs_status, ui_fmt_with(req.language, ok, decimal_nat(req.amount as nat)))
        },
        Err(e) => {
            &&& after == (WalletState { zs_status: after.zs_status, ..before })
            &&& text_is(after.zs_status, ui_fmt_with(req.language, failed, e@))
        },
    }
}

/// The controller of the wallet: the state and the actions on it.
pub struct AppController {
    pub s: WalletState,
}

impl AppController {
    pub fn new(state: WalletState) -> (r: Self)
        ensures
            r.s == state,
    {
        AppController { s: state }
    }

    /// The GUN relay peers: the relay URL, unless it is blank.
    pub fn gun_peers(&self) -> (r: Vec<String>)
        ensures
            trim(self.s.gun_relay_url@).len() == 0 ==> r@.len() == 0,
            trim(self.s.gun_relay_url@).len() > 0 ==> r@ == seq![self.s.gun_relay_url],
    {
        let url = self.s.gun_relay_url.clone();
        if trim_str(url.as_str()).unicode_len() == 0 {
            Vec::new()
        } else {
            let mut v = Vec::new();
            v.push(url);
            v
        }
    }

    /// Start passkey authentication from the sign-in screen. On localhost the passkey is not
    /// asked for; otherwise the result says that a passkey authentication is to run.
    pub fn start_auth(&mut self, localhost: bool) -> (needs_passkey: bool)
        ensures
            needs_passkey == !localhost,
            localhost ==> final(self).s == (WalletState { auth_state: AuthState::Authenticated, ..old(self).s }),
            !localhost ==> final(self).s == (WalletState { auth_state: AuthState::Authenticating, ..old(self).s }),
    {
        if localhost {
            self.s.auth_state = AuthState::Authenticated;
            false
        } else {
            self.s.auth_state = AuthState::Authenticating;
            true
        }
    }

    /// The passkey authentication of the sign-in screen answered `outcome`.
    pub fn finish_auth(&mut self, outcome: PasskeyOutcome)
        ensures
            match outcome {
                PasskeyOutcome::Done { success: true, prf_key, .. } => final(self).s == (WalletState {
                    prf_key,
                    auth_state: AuthState::Authenticated,
                    ..old(self).s
                }),
                _ => final(self).s == (WalletState { auth_state: AuthState::Failed, ..old(self).s }),
            },
    {
        match outcome {
            PasskeyOutcome::Done { success: true, prf_key, .. } => {
                self.s.prf_key = prf_key;
                self.s.auth_state = AuthState::Authenticated;
            },
            _ => {
                self.s.auth_state = AuthState::Failed;
            },
        }
    }

    /// Enable biometric identification (it cannot be turned off here). On localhost it
    /// is enabled at once; elsewhere a passkey is registered first.
    pub fn toggle_biometric(&mut self, localhost: bool) -> (r: BiometricStep)
        ensures
            old(self).s.biometric_enabled ==> r is Nothing && final(self).s == old(self).s,
            !old(self).s.biometric_enabled && localhost ==> r is PersistEnabled && final(self).s == (
            WalletState { biometric_enabled: true, ..old(self).s }),
            !old(self).s.biometric_enabled && !localhost ==> r is Register && final(self).s == old(
            self).s,
    {
        if self.s.biometric_enabled {
            BiometricStep::Nothing
        } else if localhost {
            self.s.biometric_enabled = true;
            BiometricStep::PersistEnabled
        } else {
            BiometricStep::Register
        }
    }

    /// The passkey registration answered `outcome`. Returns whether the enabled
    /// preference is to be saved, and the line to log.
    pub fn finish_toggle_biometric(&mut self, outcome: PasskeyOutcome) -> (r: (bool, String))
        ensures
            match outcome {
                PasskeyOutcome::Done { success: true, .. } => {
                    &&& r.0
                    &&& r.1@ == "Biometric registration successful"@
                    &&& final(self).s == (WalletState { biometric_enabled: true, ..old(self).s })
                },
                PasskeyOutcome::Done { success: false, error, .. } => {
                    &&& !r.0
                    &&& r.1@ == "Biometric registration failed: "@ + (match error {
                        Some(e) => e@,
                        None => "Unknown error"@,
                    })
                    &&& final(self).s == old(self).s
                },
                PasskeyOutcome::Failed(e) => {
                    &&& !r.0
                    &&& r.1@ == "Biometric registration error: "@ + e@
                    &&& final(self).s == old(self).s
                },
            },
    {
        match outcome {
            PasskeyOutcome::Done { success: true, .. } => {
                self.s.biometric_enabled = true;
                (true, "Biometric registration successful".to_owned())
            },
            PasskeyOutcome::Done { success: false, error, .. } => {
                let err = match error {
                    Some(e) => e,
                    None => "Unknown error".to_owned(),
                };
                (false, concat("Biometric registration failed: ", err.as_str()))
            },
            PasskeyOutcome::Failed(e) => (false, concat("Biometric registration error: ", e.as_str())),
        }
    }

    /// Close the "enable biometric to save" modal.
    pub fn dismiss_biometric_save_modal(&mut self)
        ensures
            final(self).s == (WalletState { biometric_save_modal_open: false, ..old(self).s }),
    {
        self.s.biometric_save_modal_open = false;
    }

    /// Reveal the active secret. On localhost or with biometric identification off it is
    /// shown at once; otherwise the result says that a passkey verification is to run.
    pub fn reveal_secret(&mut self, localhost: bool) -> (needs_verification: bool)
        ensures
            needs_verification == (!localhost && old(self).s.biometric_enabled),
            needs_verification ==> final(self).s == old(self).s,
            !needs_verification ==> final(self).s == (WalletState { show_secret: true, ..old(self).s }),
    {
        if localhost || !self.s.biometric_enabled {
            self.s.show_secret = true;
            false
        } else {
            true
        }
    }

    /// The passkey verification for revealing the active secret answered `verified`.
    pub fn finish_reveal_secret(&mut self, verified: Result<bool, String>)
        ensures
            verified == Ok::<bool, String>(true) ==> final(self).s == (WalletState { show_secret: true, ..old(self).s }),
            verified != Ok::<bool, String>(true) ==> final(self).s == old(self).s,
    {
        if let Ok(true) = verified {
            self.s.show_secret = true;
        }
    }

    /// Record the active public key in the slot of the current network.
    pub fn track_network_key(&mut self)
        ensures
            final(self).s == with_tracked_key(old(self).s),
    {
        let pk = clone_text(&self.s.public_key);
        match self.s.current_network {
            NetworkEnvironment::Production => self.s.mainnet_public_key = pk,
            NetworkEnvironment::Test => self.s.testnet_public_key = pk,
        }
    }

    /// Make the new key pair `keypair` (public key, secret key) that the ledger generated
    /// the active key of the current network.
    pub fn generate_key(&mut self, keypair: (String, String))
        ensures
            final(self).s == with_tracked_key(
                WalletState {
                    public_key: Some(keypair.0),
                    secret_key_hidden: Some(keypair.1),
                    ..old(self).s
                },
            ),
    {
        let (pk, sk) = keypair;
        self.s.public_key = Some(pk);
        crate::text::replace_secret(&mut self.s.secret_key_hidden, Some(sk));
        self.track_network_key();
    }

    /// Import the typed secret. `derived` is the public key that the ledger derives from
    /// the typed input, or nothing when the input is no valid secret; then nothing changes.
    pub fn import_key(&mut self, derived: Option<String>)
        ensures
            derived is None ==> final(self).s == old(self).s,
            derived matches Some(pk) ==> {
                &&& final(self).s == with_tracked_key(
                    WalletState {
                        public_key: Some(pk),
                        secret_key_hidden: Some(old(self).s.input_value),
                        input_value: final(self).s.input_value,
                        ..old(self).s
                    },
                )
                &&& final(self).s.input_value@ == Seq::<char>::empty()
            },
    {
        if derived.is_some() {
            let mut raw_input = String::new();
            std::mem::swap(&mut raw_input, &mut self.s.input_value);
            if let Some((pk, secret)) = import_keypair(raw_input, derived) {
                self.s.public_key = Some(pk);
                crate::text::replace_secret(&mut self.s.secret_key_hidden, Some(secret));
                self.track_network_key();
            }
        }
    }

    /// Copy the active secret: returns the text to put on the clipboard and the line to
    /// log, and opens the clipboard modal. Without a secret nothing happens.
    pub fn copy_secret_to_clipboard(&mut self) -> (r: Option<(String, String)>)
        ensures
            r is Some == old(self).s.secret_key_hidden is Some,
            r is None ==> final(self).s == old(self).s,
            r matches Some((text, line)) ==> {
                &&& Some(text) == old(self).s.secret_key_hidden
                &&& line@ == ui_str(old(self).s.language, UiStr::Copied)
                &&& final(self).s == (WalletState { clipboard_modal_open: true, ..old(self).s })
            },
    {
        match clone_text(&self.s.secret_key_hidden) {
            Some(secret) => {
                let line = ui_i18n(self.s.language).copied().to_owned();
                self.s.clipboard_modal_open = true;
                Some((secret, line))
            },
            None => None,
        }
    }

    /// Copy the generated envelope: returns the text to put on the clipboard and the line
    /// to log, and opens the clipboard modal. Without an envelope nothing happens.
    pub fn copy_xdr_to_clipboard(&mut self) -> (r: Option<(String, String)>)
        ensures
            r is Some == (old(self).s.generated_xdr@.len() > 0),
            r is None ==> final(self).s == old(self).s,
            r matches Some((text, line)) ==> {
                &&& text == old(self).s.generated_xdr
                &&& line@ == ui_str(old(self).s.language, UiStr::Copied)
                &&& final(self).s == (WalletState { clipboard_modal_open: true, ..old(self).s })
            },
    {
        let xdr = self.s.generated_xdr.clone();
        if xdr.as_str().unicode_len() > 0 {
            let line = ui_i18n(self.s.language).copied().to_owned();
            self.s.clipboard_modal_open = true;
            Some((xdr, line))
        } else {
            None
        }
    }

    /// Close the clipboard modal; the clipboard is to be cleared. Returns the line to log.
    pub fn dismiss_clipboard_modal(&mut self) -> (line: String)
        ensures
            line@ == ui_str(old(self).s.language, UiStr::ClipboardCleared),
            final(self).s == (WalletState { clipboard_modal_open: false, ..old(self).s }),
    {
        self.s.clipboard_modal_open = false;
        ui_i18n(self.s.language).clipboard_cleared().to_owned()
    }

    /// Choose the interface language by its selector code; unknown codes choose English.
    pub fn set_language(&mut self, code: &str)
        ensures
            final(self).s == (WalletState { language: language_for_code(code@), ..old(self).s }),
    {
        self.s.language = language_from_code(code);
    }

    /// Ask to switch to the other network. With a secret in memory the switch waits for
    /// the user to decide about saving it; otherwise it happens at once.
    pub fn toggle_network(&mut self)
        ensures
            old(self).s.secret_key_hidden is Some ==> final(self).s == switch_requested(old(self).s),
            old(self).s.secret_key_hidden is None ==> {
                &&& final(self).s == switched(
                    old(self).s,
                    other_network(old(self).s.current_network),
                    final(self).s.generated_xdr,
                )
                &&& final(self).s.generated_xdr@ == Seq::<char>::empty()
            },
    {
        let next = self.s.current_network.other();
        if self.s.secret_key_hidden.is_some() {
            self.s.network_switch_pending = Some(next);
        } else {
            self.do_switch_network(next);
        }
    }

    /// Switch to network `next`; the generated envelope belongs to the old network and
    /// is dropped.
    fn do_switch_network(&mut self, next: NetworkEnvironment)
        ensures
            final(self).s == switched(old(self).s, next, final(self).s.generated_xdr),
            final(self).s.generated_xdr@ == Seq::<char>::empty(),
    {
        self.s.current_network = next;
        self.s.generated_xdr = String::new();
    }

    /// The user chose to switch without saving.
    pub fn confirm_network_switch_discard(&mut self)
        ensures
            switch_confirmed(old(self).s, final(self).s),
    {
        if let Some(next) = self.s.network_switch_pending {
            self.do_switch_network(next);
        }
        self.s.network_switch_pending = None;
    }

    /// The user cancelled the network switch.
    pub fn cancel_network_switch(&mut self)
        ensures
            final(self).s == (WalletState { network_switch_pending: None, ..old(self).s }),
    {
        self.s.network_switch_pending = None;
    }

    /// Open the SEA key generation modal.
    pub fn open_sea_modal(&mut self)
        ensures
            final(self).s == (WalletState { sea_modal_open: true, ..old(self).s }),
    {
        self.s.sea_modal_open = true;
    }

    /// Close the SEA key generation modal and forget the typed passphrase.
    pub fn close_sea_modal(&mut self)
        ensures
            final(self).s == (WalletState {
                sea_modal_open: false,
                sea_modal_input: final(self).s.sea_modal_input,
                ..old(self).s
            }),
            final(self).s.sea_modal_input@ == Seq::<char>::empty(),
    {
        self.s.sea_modal_open = false;
        crate::text::wipe(&mut self.s.sea_modal_input);
    }

    /// Close the recovery shares modal.
    pub fn dismiss_sss_modal(&mut self)
        ensures
            final(self).s == (WalletState { sss_shares: None, ..old(self).s }),
    {
        self.s.sss_shares = None;
    }

    /// Make the key pair `keypair` (public key, secret key) that the ledger generated for
    /// network `net` the key of that network, and its public key the active one.
    pub fn generate_key_for_network(&mut self, net: NetworkEnvironment, keypair: (String, String))
        ensures
            final(self).s == with_network_key(old(self).s, net, keypair.0, keypair.1),
    {
        let (pk, sk) = keypair;
        match net {
            NetworkEnvironment::Production => {
                self.s.mainnet_public_key = Some(pk.clone());
                crate::text::replace_secret(&mut self.s.mainnet_secret_key, Some(sk));
            },
            NetworkEnvironment::Test => {
                self.s.testnet_public_key = Some(pk.clone());
                crate::text::replace_secret(&mut self.s.testnet_secret_key, Some(sk));
            },
        }
        self.s.public_key = Some(pk);
    }

    /// Import the secret typed for network `net`. `derived` is the public key that the
    /// ledger derives from that input, or nothing when it is no valid secret; then nothing
    /// changes.
    pub fn import_key_for_network(&mut self, net: NetworkEnvironment, derived: Option<String>)
        ensures
            derived is None ==> final(self).s == old(self).s,
            derived matches Some(pk) ==> {
                &&& final(self).s == with_input(
                    with_network_key(old(self).s, net, pk, input_of(old(self).s, net)),
                    net,
                    input_of(final(self).s, net),
                )
                &&& input_of(final(self).s, net)@ == Seq::<char>::empty()
            },
    {
        if let Some(pk) = derived {
            let mut secret = String::new();
            match net {
                NetworkEnvironment::Production => {
                    std::mem::swap(&mut secret, &mut self.s.mainnet_input_value);
                    self.s.mainnet_public_key = Some(pk.clone());
                    crate::text::replace_secret(&mut self.s.mainnet_secret_key, Some(secret));
                },
                NetworkEnvironment::Test => {
                    std::mem::swap(&mut secret, &mut self.s.testnet_input_value);
                    self.s.testnet_public_key = Some(pk.clone());
                    crate::text::replace_secret(&mut self.s.testnet_secret_key, Some(secret));
                },
            }
            self.s.public_key = Some(pk);
        }
    }

    /// Reveal the secret of network `net`; as `reveal_secret`.
    pub fn reveal_secret_for_network(&mut self, net: NetworkEnvironment, localhost: bool) -> (needs_verification: bool)
        ensures
            needs_verification == (!localhost && old(self).s.biometric_enabled),
            needs_verification ==> final(self).s == old(self).s,
            !needs_verification ==> final(self).s == with_secret_shown(old(self).s, net),
    {
        if localhost || !self.s.biometric_enabled {
            self.show_network_secret(net);
            false
        } else {
            true
        }
    }

    fn show_network_secret(&mut self, net: NetworkEnvironment)
        ensures
            final(self).s == with_secret_shown(old(self).s, net),
    {
        match net {
            NetworkEnvironment::Production => self.s.mainnet_show_secret = true,
            NetworkEnvironment::Test => self.s.testnet_show_secret = true,
        }
    }

    /// The passkey verification for revealing the secret of network `net` answered `verified`.
    pub fn finish_reveal_secret_for_network(&mut self, net: NetworkEnvironment, verified: Result<bool, String>)
        ensures
            verified == Ok::<bool, String>(true) ==> final(self).s == with_secret_shown(old(self).s, net),
            verified != Ok::<bool, String>(true) ==> final(self).s == old(self).s,
    {
        if let Ok(true) = verified {
            self.show_network_secret(net);
        }
    }

    /// Copy the secret of network `net`; as `copy_secret_to_clipboard`.
    pub fn copy_secret_for_network(&mut self, net: NetworkEnvironment) -> (r: Option<(String, String)>)
        ensures
            r is Some == secret_of(old(self).s, net) is Some,
            net == NetworkEnvironment::Test ==> (r is Some == old(self).s.testnet_secret_key is Some),
            net == NetworkEnvironment::Production ==> (r is Some == old(self).s.mainnet_secret_key is Some),
            r is None ==> final(self).s == old(self).s,
            r matches Some((text, line)) ==> {
                &&& Some(text) == secret_of(old(self).s, net)
                &&& net == NetworkEnvironment::Test ==> Some(text) == old(self).s.testnet_secret_key
                &&& net == NetworkEnvironment::Production ==> Some(text) == old(self).s.mainnet_secret_key
                &&& line@ == ui_str(old(self).s.language, UiStr::Copied)
                &&& final(self).s == (WalletState { clipboard_modal_open: true, ..old(self).s })
            },
    {
        let secret = match net {
            NetworkEnvironment::Production => clone_text(&self.s.mainnet_secret_key),
            NetworkEnvironment::Test => clone_text(&self.s.testnet_secret_key),
        };
        match secret {
            Some(secret) => {
                let line = ui_i18n(self.s.language).copied().to_owned();
                self.s.clipboard_modal_open = true;
                Some((secret, line))
            },
            None => None,
        }
    }

    /// Ask the faucet to fund the active public key on the current network. The status
    /// shows the call; without a public key there is nothing to ask.
    pub fn activate_test_account_action(&mut self) -> (r: Option<FaucetRequest>)
        ensures
            final(self).s == (WalletState { submission_status: TxStatus::CallingFaucet, ..old(self).s }),
            r is Some == old(self).s.public_key is Some,
            r matches Some(req) ==> {
                &&& Some(req.public_key) == old(self).s.public_key
                &&& req.network == old(self).s.current_network
                &&& req.language == old(self).s.language
            },
    {
        self.s.submission_status = TxStatus::CallingFaucet;
        activate_test_account(clone_text(&self.s.public_key), self.s.current_network, self.s.language)
    }

    /// Ask the faucet to fund the testnet public key.
    pub fn activate_test_account_for_testnet(&mut self) -> (r: Option<FaucetRequest>)
        ensures
            final(self).s == (WalletState { submission_status: TxStatus::CallingFaucet, ..old(self).s }),
            r is Some == old(self).s.testnet_public_key is Some,
            r matches Some(req) ==> {
                &&& Some(req.public_key) == old(self).s.testnet_public_key
                &&& req.network == NetworkEnvironment::Test
                &&& req.language == old(self).s.language
            },
    {
        self.s.submission_status = TxStatus::CallingFaucet;
        activate_test_account(clone_text(&self.s.testnet_public_key), NetworkEnvironment::Test, self.s.language)
    }

    /// The faucet answered `result`.
    pub fn finish_faucet(&mut self, result: Result<String, String>)
        ensures
            match result {
                Ok(msg) => final(self).s == (WalletState { submission_status: TxStatus::FaucetSuccess(msg), ..old(self).s }),
                Err(e) => final(self).s == (WalletState { submission_status: TxStatus::Error(e), ..old(self).s }),
            },
    {
        self.s.submission_status = faucet_outcome(result);
    }

    /// Build a signed self-payment envelope with the testnet secret. Without a testnet
    /// secret the status says so and there is nothing to ask.
    pub fn fetch_and_generate_xdr_action(&mut self) -> (r: Option<SecretRequest>)
        ensures
            r is Some == old(self).s.testnet_secret_key is Some,
            r is None ==> final(self).s == (WalletState { submission_status: TxStatus::NoKey, ..old(self).s }),
            r matches Some(req) ==> {
                &&& Some(req.secret) == old(self).s.testnet_secret_key
                &&& req.network == NetworkEnvironment::Test
                &&& req.language == old(self).s.language
                &&& final(self).s == (WalletState { submission_status: TxStatus::FetchingSequence, ..old(self).s })
            },
    {
        match fetch_and_generate_xdr(clone_text(&self.s.testnet_secret_key), NetworkEnvironment::Test, self.s.language) {
            Ok(req) => {
                self.s.submission_status = TxStatus::FetchingSequence;
                Some(req)
            },
            Err(status) => {
                self.s.submission_status = status;
                None
            },
        }
    }

    /// The ledger answered the envelope build with `result` (envelope and sequence
    /// number); `net_name` is the name of the network it was built for.
    pub fn finish_generate_xdr(&mut self, result: Result<(String, i64), String>, net_name: String)
        ensures
            match result {
                Ok((xdr, seq)) => final(self).s == (WalletState {
                    generated_xdr: xdr,
                    submission_status: TxStatus::XdrReady { net: net_name, seq },
                    ..old(self).s
                }),
                Err(e) => final(self).s == (WalletState { submission_status: TxStatus::Error(e), ..old(self).s }),
            },
    {
        match xdr_outcome(result, net_name) {
            Ok((xdr, status)) => {
                self.s.generated_xdr = xdr;
                self.s.submission_status = status;
            },
            Err(status) => {
                self.s.submission_status = status;
            },
        }
    }

    /// Submit the generated envelope on the testnet. Without an envelope the status says
    /// so and there is nothing to ask.
    pub fn submit_transaction_action(&mut self) -> (r: Option<SubmitRequest>)
        ensures
            r is Some == (old(self).s.generated_xdr@.len() > 0),
            r is None ==> final(self).s == (WalletState { submission_status: TxStatus::NoXdr, ..old(self).s }),
            r matches Some(req) ==> {
                &&& req.xdr == old(self).s.generated_xdr
                &&& req.network == NetworkEnvironment::Test
                &&& req.language == old(self).s.language
                &&& final(self).s == (WalletState { submission_status: TxStatus::Submitting, ..old(self).s })
            },
    {
        match submit_transaction(self.s.generated_xdr.clone(), NetworkEnvironment::Test, self.s.language) {
            Ok(req) => {
                self.s.submission_status = TxStatus::Submitting;
                Some(req)
            },
            Err(status) => {
                self.s.submission_status = status;
                None
            },
        }
    }

    /// The ledger answered the submission with `result`.
    pub fn finish_submit(&mut self, result: Result<String, String>)
        ensures
            match result {
                Ok(msg) => final(self).s == (WalletState { submission_status: TxStatus::Success(msg), ..old(self).s }),
                Err(e) => final(self).s == (WalletState { submission_status: TxStatus::Error(e), ..old(self).s }),
            },
    {
        self.s.submission_status = submission_outcome(result);
    }

    /// Ping the contract with the active secret. Without a secret the ping status says
    /// so and there is nothing to ask.
    pub fn ping_contract_action(&mut self) -> (r: Option<SecretRequest>)
        ensures
            r is Some == old(self).s.secret_key_hidden is Some,
            final(self).s == (WalletState { ping_status: final(self).s.ping_status, ..old(self).s }),
            r is None ==> text_is(final(self).s.ping_status, ui_str(old(self).s.language, UiStr::PingNoKey)),
            r matches Some(req) ==> {
                &&& Some(req.secret) == old(self).s.secret_key_hidden
                &&& req.network == old(self).s.current_network
                &&& req.language == old(self).s.language
                &&& text_is(final(self).s.ping_status, ui_str(old(self).s.language, UiStr::PingCalling))
            },
    {
        let i18n = ui_i18n(self.s.language);
        match clone_text(&self.s.secret_key_hidden) {
            Some(secret) => {
                self.s.ping_status = Some(i18n.ping_calling().to_owned());
                Some(SecretRequest { secret, network: self.s.current_network, language: self.s.language })
            },
            None => {
                self.s.ping_status = Some(i18n.ping_no_key().to_owned());
                None
            },
        }
    }

    /// The contract answered the ping of `req` with `result`.
    pub fn finish_ping(&mut self, req: &SecretRequest, result: Result<String, String>)
        ensures
            final(self).s == (WalletState { ping_status: final(self).s.ping_status, ..old(self).s }),
            text_is(final(self).s.ping_status, match result {
                Ok(msg) => ui_fmt_with(req.language, UiFmt::PingSuccess, msg@),
                Err(e) => ui_fmt_with(req.language, UiFmt::PingError, e@),
            }),
    {
        let i18n = ui_i18n(req.language);
        let text = match result {
            Ok(msg) => i18n.ping_success(msg.as_str()),
            Err(e) => i18n.ping_error(e.as_str()),
        };
        self.s.ping_status = Some(text);
    }

    /// Start a QR scan; the ping status shows it. Returns the language of its messages.
    pub fn scan_qr_action(&mut self) -> (lang: Language)
        ensures
            lang == old(self).s.language,
            final(self).s == (WalletState { ping_status: final(self).s.ping_status, ..old(self).s }),
            text_is(final(self).s.ping_status, ui_str(old(self).s.language, UiStr::ScanScanning)),
    {
        self.s.ping_status = Some(ui_i18n(self.s.language).scan_scanning().to_owned());
        self.s.language
    }

    /// The QR scan started in language `lang` answered `result`: the scanned text or an
    /// error (`cancelled` when the user closed the camera). Returns the line to log.
    pub fn finish_scan_qr(&mut self, lang: Language, result: Result<String, String>) -> (line: Option<String>)
        ensures
            final(self).s == (WalletState { ping_status: final(self).s.ping_status, ..old(self).s }),
            match result {
                Ok(key) => {
                    &&& line matches Some(l) && l@ == "Scanned public key: "@ + key@
                    &&& text_is(final(self).s.ping_status, ui_fmt_with(lang, UiFmt::ScanSuccess, key@))
                },
                Err(e) => {
                    &&& line is None
                    &&& e@ == "cancelled"@ ==> final(self).s.ping_status is None
                    &&& e@ != "cancelled"@ ==> text_is(final(self).s.ping_status, ui_fmt_with(lang, UiFmt::ScanError, e@))
                },
            },
    {
        let i18n = ui_i18n(lang);
        match result {
            Ok(key) => {
                let line = concat("Scanned public key: ", key.as_str());
                self.s.ping_status = Some(i18n.scan_success(key.as_str()));
                Some(line)
            },
            Err(e) => {
                if str_equal(e.as_str(), "cancelled") {
                    self.s.ping_status = None;
                } else {
                    self.s.ping_status = Some(i18n.scan_error(e.as_str()));
                }
                None
            },
        }
    }

    /// Lock the typed amount of ZSOZSO. A typed amount that is not a positive whole
    /// number, or a missing secret, is reported in the status and nothing is asked.
    pub fn lock_zsozso_action(&mut self) -> (r: Option<LockRequest>)
        ensures
            lock_started(old(self).s, final(self).s, r, UiStr::ZsLocking),
    {
        self.start_lock(true)
    }

    /// Unlock the typed amount of ZSOZSO; as `lock_zsozso_action`.
    pub fn unlock_zsozso_action(&mut self) -> (r: Option<LockRequest>)
        ensures
            lock_started(old(self).s, final(self).s, r, UiStr::ZsUnlocking),
    {
        self.start_lock(false)
    }


    #[verifier::rlimit(40)]
    fn start_lock(&mut self, lock: bool) -> (r: Option<LockRequest>)
        ensures
            lock_started(old(self).s, final(self).s, r, if lock { UiStr::ZsLocking } else { UiStr::ZsUnlocking }),
    {
        let i18n = ui_i18n(self.s.language);
        let parsed = parse_u64_str(trim_str(self.s.lock_amount.as_str()));
        let amount = match parsed {
            Some(v) => if v > 0 { v } else {
                self.s.zs_status = Some(i18n.zs_invalid_amount().to_owned());
                return None;
            },
            None => {
                self.s.zs_status = Some(i18n.zs_invalid_amount().to_owned());
                return None;
            },
        };
        let secret = match clone_text(&self.s.secret_key_hidden) {
            Some(sk) => sk,
            None => {
                self.s.zs_status = Some(i18n.zs_no_key().to_owned());
                return None;
            },
        };
        let busy = if lock { i18n.zs_locking() } else { i18n.zs_unlocking() };
        self.s.zs_status = Some(busy.to_owned());
        Some(LockRequest { secret, amount, network: self.s.current_network, language: self.s.language })
    }

    /// The contract answered the lock of `req` with `result`. On success the amount field
    /// is emptied.
    pub fn finish_lock(&mut self, req: &LockRequest, result: Result<(), String>)
        ensures
            lock_finished(old(self).s, final(self).s, req, result, UiFmt::FmtZsLockSuccess, UiFmt::FmtZsLockError),
    {
        self.finish_lock_or_unlock(req, result, true)
    }

    /// The contract answered the unlock of `req` with `result`; as `finish_lock`.
    pub fn finish_unlock(&mut self, req: &LockRequest, result: Result<(), String>)
        ensures
            lock_finished(old(self).s, final(self).s, req, result, UiFmt::FmtZsUnlockSuccess, UiFmt::FmtZsUnlockError),
    {
        self.finish_lock_or_unlock(req, result, false)
    }


    fn finish_lock_or_unlock(&mut self, req: &LockRequest, result: Result<(), String>, lock: bool)
        ensures
            lock_finished(old(self).s, final(self).s, req, result,
                if lock { UiFmt::FmtZsLockSuccess } else { UiFmt::FmtZsUnlockSuccess },
                if lock { UiFmt::FmtZsLockError } else { UiFmt::FmtZsUnlockError }),
    {
        let i18n = ui_i18n(req.language);
        match result {
            Ok(_) => {
                let amount = decimal_u64(req.amount);
                let text = if lock { i18n.fmt_zs_lock_success(amount.as_str()) } else { i18n.fmt_zs_unlock_success(amount.as_str()) };
                self.s.zs_status = Some(text);
                self.s.lock_amount = String::new();
            },
            Err(e) => {
                let text = if lock { i18n.fmt_zs_lock_error(e.as_str()) } else { i18n.fmt_zs_unlock_error(e.as_str()) };
                self.s.zs_status = Some(text);
            },
        }
    }

    /// Open tab `tab`.
    pub fn select_tab(&mut self, tab: Tab)
        ensures
            final(self).s == (WalletState { active_tab: tab, ..old(self).s }),
    {
        self.s.active_tab = tab;
    }

    /// Hide the secret of network `net` again.
    pub fn hide_secret_for_network(&mut self, net: NetworkEnvironment)
        ensures
            net == NetworkEnvironment::Production ==> final(self).s == (WalletState { mainnet_show_secret: false, ..old(self).s }),
            net == NetworkEnvironment::Test ==> final(self).s == (WalletState { testnet_show_secret: false, ..old(self).s }),
    {
        match net {
            NetworkEnvironment::Production => self.s.mainnet_show_secret = false,
            NetworkEnvironment::Test => self.s.testnet_show_secret = false,
        }
    }

    /// Tell, in the CYF modal, that the CYF function `function` (burn or mint) is not
    /// implemented yet.
    pub fn show_cyf_not_implemented(&mut self, function: &str)
        ensures
            final(self).s == (WalletState { cyf_modal_message: final(self).s.cyf_modal_message, ..old(self).s }),
            text_is(final(self).s.cyf_modal_message, ui_fmt_with(old(self).s.language, UiFmt::CyfNotImplemented, function@)),
    {
        let i18n = ui_i18n(self.s.language);
        self.s.cyf_modal_message = Some(i18n.cyf_not_implemented(function));
    }

    /// Tell, in the CYF modal, that locking (or, with `lock` false, unlocking) is not
    /// connected to the deployed contract yet.
    pub fn show_lock_not_connected(&mut self, lock: bool)
        ensures
            final(self).s == (WalletState { cyf_modal_message: final(self).s.cyf_modal_message, ..old(self).s }),
            text_is(final(self).s.cyf_modal_message, if lock {
                "Lock function is not yet connected to the deployed contract."@
            } else {
                "Unlock function is not yet connected to the deployed contract."@
            }),
    {
        let text = if lock {
            "Lock function is not yet connected to the deployed contract."
        } else {
            "Unlock function is not yet connected to the deployed contract."
        };
        self.s.cyf_modal_message = Some(text.to_owned());
    }

    /// Set the PIN code (localhost only).
    pub fn set_pin_code(&mut self, pin: String)
        ensures
            final(self).s == (WalletState { pin_code: pin, ..old(self).s }),
    {
        self.s.pin_code = pin;
    }
}

} // verus!
