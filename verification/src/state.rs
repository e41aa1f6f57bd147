//! The wallet's state, as plain values.

use vstd::prelude::*;
use crate::language::{Language, NetworkEnvironment};
use crate::status::TxStatus;
use crate::tabs::Tab;

verus! {

/// Where passkey authentication stands.
#[derive(Clone, Copy, PartialEq, Eq, Structural, Debug)]
pub enum AuthState {
    /// The sign-in screen is shown; the user has not started authenticating.
    Pending,
    /// The passkey dialog is open.
    Authenticating,
    /// The user signed in; the tabs are shown.
    Authenticated,
    /// Authentication failed; only the error screen is shown.
    Failed,
}

impl Default for AuthState {
    fn default() -> (r: Self)
        ensures
            r == AuthState::Pending,
    {
        AuthState::Pending
    }
}

/// Everything the wallet's screens show and its actions read.
pub struct WalletState {
    pub language: Language,
    /// The active public key.
    pub public_key: Option<String>,
    /// The active secret key (kept only in memory).
    pub secret_key_hidden: Option<String>,
    pub show_secret: bool,
    pub input_value: String,
    pub generated_xdr: String,
    pub submission_status: TxStatus,
    pub current_network: NetworkEnvironment,
    pub clipboard_modal_open: bool,
    pub active_tab: Tab,
    pub auth_state: AuthState,
    /// The passkey PRF key that encrypts stored secrets.
    pub prf_key: Option<String>,
    pub ping_status: Option<String>,
    /// The network the user asked to switch to while a secret was loaded.
    pub network_switch_pending: Option<NetworkEnvironment>,
    pub sea_modal_open: bool,
    /// The SEA passphrase being typed (kept only in memory).
    pub sea_modal_input: String,
    /// Whether a SEA key pair has been generated in this session.
    pub has_sea_key_pair: bool,
    pub biometric_enabled: bool,
    pub biometric_save_modal_open: bool,
    pub nickname: String,
    /// Ancestry chain (parent, grandparent, ...).
    pub network_parents: Vec<String>,
    /// Direct workers of this node.
    pub network_workers: Vec<String>,
    /// Public key and nickname of the displayed network nodes.
    pub network_nicknames: Vec<(String, String)>,
    pub cyf_modal_message: Option<String>,
    /// GUN node address (SEA public key).
    pub gun_address: String,
    pub gun_relay_url: String,
    /// Recovery shares of the SEA passphrase, while their modal is shown.
    pub sss_shares: Option<Vec<String>>,
    pub xlm_balance: Option<String>,
    pub zsozso_balance: Option<String>,
    pub locked_zsozso: Option<String>,
    pub zs_status: Option<String>,
    pub mainnet_public_key: Option<String>,
    pub testnet_public_key: Option<String>,
    pub mainnet_secret_key: Option<String>,
    pub testnet_secret_key: Option<String>,
    pub mainnet_input_value: String,
    pub testnet_input_value: String,
    pub mainnet_show_secret: bool,
    pub testnet_show_secret: bool,
    pub lock_amount: String,
    pub pin_code: String,
}

/// Whether `s` is the state the wallet starts in; `biometric_enabled` is the stored
/// biometric preference.
pub open spec fn is_initial_state(s: WalletState, biometric_enabled: bool) -> bool {
    &&& s.language == Language::English
    &&& s.public_key is None
    &&& s.secret_key_hidden is None
    &&& !s.show_secret
    &&& s.input_value@ == Seq::<char>::empty()
    &&& s.generated_xdr@ == Seq::<char>::empty()
    &&& s.submission_status is Waiting
    &&& s.current_network == NetworkEnvironment::Production
    &&& !s.clipboard_modal_open
    &&& s.active_tab == Tab::Cyf
    &&& s.auth_state == (if biometric_enabled { AuthState::Pending } else { AuthState::Authenticated })
    &&& s.prf_key is None
    &&& s.ping_status is None
    &&& s.network_switch_pending is None
    &&& !s.sea_modal_open
    &&& s.sea_modal_input@ == Seq::<char>::empty()
    &&& !s.has_sea_key_pair
    &&& s.biometric_enabled == biometric_enabled
    &&& !s.biometric_save_modal_open
    &&& s.nickname@ == Seq::<char>::empty()
    &&& s.network_parents@.len() == 0
    &&& s.network_workers@.len() == 0
    &&& s.network_nicknames@.len() == 0
    &&& s.cyf_modal_message is None
    &&& s.gun_address@ == Seq::<char>::empty()
    &&& s.gun_relay_url@ == Seq::<char>::empty()
    &&& s.sss_shares is None
    &&& s.xlm_balance is None
    &&& s.zsozso_balance is None
    &&& s.locked_zsozso is None
    &&& s.zs_status is None
    &&& s.mainnet_public_key is None
    &&& s.testnet_public_key is None
    &&& s.mainnet_secret_key is None
    &&& s.testnet_secret_key is None
    &&& s.mainnet_input_value@ == Seq::<char>::empty()
    &&& s.testnet_input_value@ == Seq::<char>::empty()
    &&& !s.mainnet_show_secret
    &&& !s.testnet_show_secret
    &&& s.lock_amount@ == Seq::<char>::empty()
    &&& s.pin_code@ == Seq::<char>::empty()
}

impl WalletState {
    /// The state the wallet starts in. With biometric identification off, the
    /// sign-in screen is skipped.
    pub fn new(biometric_enabled: bool) -> (r: Self)
        ensures
            is_initial_state(r, biometric_enabled),
    {
        WalletState {
            language: Language::English,
            public_key: None,
            secret_key_hidden: None,
            show_secret: false,
            input_value: String::new(),
            generated_xdr: String::new(),
            submission_status: TxStatus::Waiting,
            current_network: NetworkEnvironment::Production,
            clipboard_modal_open: false,
            active_tab: Tab::Cyf,
            auth_state: if biometric_enabled { AuthState::Pending } else { AuthState::Authenticated },
            prf_key: None,
            ping_status: None,
            network_switch_pending: None,
            sea_modal_open: false,
            sea_modal_input: String::new(),
            has_sea_key_pair: false,
            biometric_enabled,
            biometric_save_modal_open: false,
            nickname: String::new(),
            network_parents: Vec::new(),
            network_workers: Vec::new(),
            network_nicknames: Vec::new(),
            cyf_modal_message: None,
            gun_address: String::new(),
            gun_relay_url: String::new(),
            sss_shares: None,
            xlm_balance: None,
            zsozso_balance: None,
            locked_zsozso: None,
            zs_status: None,
            mainnet_public_key: None,
            testnet_public_key: None,
            mainnet_secret_key: None,
            testnet_secret_key: None,
            mainnet_input_value: String::new(),
            testnet_input_value: String::new(),
            mainnet_show_secret: false,
            testnet_show_secret: false,
            lock_amount: String::new(),
            pin_code: String::new(),
        }
    }
}

} // verus!
