use zsozso::controller::{AppController, BiometricStep, PasskeyOutcome};
use zsozso::language::{Language, NetworkEnvironment};
use zsozso::state::{AuthState, WalletState};
use zsozso::status::TxStatus;
use zsozso::tabs::Tab;

fn wallet() -> AppController {
    AppController::new(WalletState::new(true))
}

#[test]
fn initial_state() {
    let with_bio = WalletState::new(true);
    assert_eq!(with_bio.auth_state, AuthState::Pending);
    assert!(with_bio.biometric_enabled);
    assert_eq!(with_bio.current_network, NetworkEnvironment::Production);
    assert_eq!(with_bio.language, Language::English);
    assert_eq!(with_bio.active_tab, Tab::Cyf);
    assert!(matches!(with_bio.submission_status, TxStatus::Waiting));
    assert!(with_bio.public_key.is_none());
    let without_bio = WalletState::new(false);
    assert_eq!(without_bio.auth_state, AuthState::Authenticated);
}

#[test]
fn sign_in_on_localhost_and_with_passkey() {
    let mut c = wallet();
    assert!(!c.start_auth(true));
    assert_eq!(c.s.auth_state, AuthState::Authenticated);

    let mut c = wallet();
    assert!(c.start_auth(false));
    assert_eq!(c.s.auth_state, AuthState::Authenticating);
    c.finish_auth(PasskeyOutcome::Done { success: true, prf_key: Some("prf".to_string()), error: None });
    assert_eq!(c.s.auth_state, AuthState::Authenticated);
    assert_eq!(c.s.prf_key.as_deref(), Some("prf"));

    let mut c = wallet();
    c.start_auth(false);
    c.finish_auth(PasskeyOutcome::Failed("no authenticator".to_string()));
    assert_eq!(c.s.auth_state, AuthState::Failed);
}

#[test]
fn biometric_registration() {
    let mut c = AppController::new(WalletState::new(false));
    assert!(matches!(c.toggle_biometric(true), BiometricStep::PersistEnabled));
    assert!(c.s.biometric_enabled);
    assert!(matches!(c.toggle_biometric(false), BiometricStep::Nothing));

    let mut c = AppController::new(WalletState::new(false));
    assert!(matches!(c.toggle_biometric(false), BiometricStep::Register));
    assert!(!c.s.biometric_enabled);
    let (persist, line) = c.finish_toggle_biometric(PasskeyOutcome::Done { success: false, prf_key: None, error: None });
    assert!(!persist);
    assert_eq!(line, "Biometric registration failed: Unknown error");
    let (persist, line) = c.finish_toggle_biometric(PasskeyOutcome::Done { success: true, prf_key: None, error: None });
    assert!(persist);
    assert_eq!(line, "Biometric registration successful");
    assert!(c.s.biometric_enabled);
}

#[test]
fn reveal_secret_needs_verification() {
    let mut c = wallet();
    assert!(c.reveal_secret(false));
    assert!(!c.s.show_secret);
    c.finish_reveal_secret(Ok(false));
    assert!(!c.s.show_secret);
    c.finish_reveal_secret(Ok(true));
    assert!(c.s.show_secret);
    let mut c = wallet();
    assert!(!c.reveal_secret(true));
    assert!(c.s.show_secret);
}

#[test]
fn generated_key_becomes_active_on_current_network() {
    let mut c = wallet();
    c.generate_key(("GPUB".to_string(), "SSEC".to_string()));
    assert_eq!(c.s.public_key.as_deref(), Some("GPUB"));
    assert_eq!(c.s.secret_key_hidden.as_deref(), Some("SSEC"));
    assert_eq!(c.s.mainnet_public_key.as_deref(), Some("GPUB"));
    assert!(c.s.testnet_public_key.is_none());
}

#[test]
fn import_takes_typed_secret() {
    let mut c = wallet();
    c.s.input_value = "STYPED".to_string();
    c.import_key(None);
    assert_eq!(c.s.input_value, "STYPED");
    assert!(c.s.public_key.is_none());
    c.import_key(Some("GDERIVED".to_string()));
    assert_eq!(c.s.input_value, "");
    assert_eq!(c.s.public_key.as_deref(), Some("GDERIVED"));
    assert_eq!(c.s.secret_key_hidden.as_deref(), Some("STYPED"));
}

#[test]
fn import_for_network() {
    let mut c = wallet();
    c.s.testnet_input_value = "STEST".to_string();
    c.import_key_for_network(NetworkEnvironment::Test, Some("GTEST".to_string()));
    assert_eq!(c.s.testnet_secret_key.as_deref(), Some("STEST"));
    assert_eq!(c.s.testnet_public_key.as_deref(), Some("GTEST"));
    assert_eq!(c.s.public_key.as_deref(), Some("GTEST"));
    assert_eq!(c.s.testnet_input_value, "");
    assert!(c.s.mainnet_secret_key.is_none());
    c.generate_key_for_network(NetworkEnvironment::Production, ("GMAIN".to_string(), "SMAIN".to_string()));
    assert_eq!(c.s.mainnet_secret_key.as_deref(), Some("SMAIN"));
    assert_eq!(c.s.public_key.as_deref(), Some("GMAIN"));
    assert_eq!(c.s.testnet_secret_key.as_deref(), Some("STEST"));
}

#[test]
fn copying_secret_opens_clipboard_modal() {
    let mut c = wallet();
    assert!(c.copy_secret_to_clipboard().is_none());
    assert!(!c.s.clipboard_modal_open);
    c.generate_key(("GPUB".to_string(), "SSEC".to_string()));
    let (text, _line) = c.copy_secret_to_clipboard().unwrap();
    assert_eq!(text, "SSEC");
    assert!(c.s.clipboard_modal_open);
    let line = c.dismiss_clipboard_modal();
    assert!(!c.s.clipboard_modal_open);
    assert!(!line.is_empty());
}

#[test]
fn language_selector() {
    let mut c = wallet();
    c.set_language("hu");
    assert_eq!(c.s.language, Language::Hungarian);
    c.set_language("de");
    assert_eq!(c.s.language, Language::German);
    c.set_language("nope");
    assert_eq!(c.s.language, Language::English);
}

#[test]
fn network_switch_without_secret_happens_at_once() {
    let mut c = wallet();
    c.s.generated_xdr = "OLDXDR".to_string();
    c.toggle_network();
    assert_eq!(c.s.current_network, NetworkEnvironment::Test);
    assert_eq!(c.s.generated_xdr, "");
    assert!(c.s.network_switch_pending.is_none());
    c.toggle_network();
    assert_eq!(c.s.current_network, NetworkEnvironment::Production);
}

#[test]
fn network_switch_with_secret_waits_and_can_be_cancelled() {
    let mut c = wallet();
    c.generate_key(("GPUB".to_string(), "SSEC".to_string()));
    c.toggle_network();
    assert_eq!(c.s.current_network, NetworkEnvironment::Production);
    assert_eq!(c.s.network_switch_pending, Some(NetworkEnvironment::Test));
    c.cancel_network_switch();
    assert_eq!(c.s.current_network, NetworkEnvironment::Production);
    assert!(c.s.network_switch_pending.is_none());
    assert_eq!(c.s.secret_key_hidden.as_deref(), Some("SSEC"));
}

#[test]
fn network_switch_with_secret_confirmed() {
    let mut c = wallet();
    c.generate_key(("GPUB".to_string(), "SSEC".to_string()));
    c.s.generated_xdr = "XDR".to_string();
    c.toggle_network();
    c.confirm_network_switch_discard();
    assert_eq!(c.s.current_network, NetworkEnvironment::Test);
    assert!(c.s.network_switch_pending.is_none());
    assert_eq!(c.s.generated_xdr, "");
    assert_eq!(c.s.secret_key_hidden.as_deref(), Some("SSEC"));
}

#[test]
fn sea_modal_forgets_passphrase() {
    let mut c = wallet();
    c.open_sea_modal();
    assert!(c.s.sea_modal_open);
    c.s.sea_modal_input = "passphrase".to_string();
    c.close_sea_modal();
    assert!(!c.s.sea_modal_open);
    assert_eq!(c.s.sea_modal_input, "");
}

#[test]
fn faucet_and_submission() {
    let mut c = wallet();
    assert!(c.activate_test_account_action().is_none());
    assert!(matches!(c.s.submission_status, TxStatus::CallingFaucet));
    c.generate_key(("GPUB".to_string(), "SSEC".to_string()));
    let req = c.activate_test_account_action().unwrap();
    assert_eq!(req.public_key, "GPUB");
    c.finish_faucet(Ok("funded".to_string()));
    assert!(matches!(&c.s.submission_status, TxStatus::FaucetSuccess(m) if m == "funded"));

    assert!(c.submit_transaction_action().is_none());
    assert!(matches!(c.s.submission_status, TxStatus::NoXdr));
    assert!(c.fetch_and_generate_xdr_action().is_none());
    assert!(matches!(c.s.submission_status, TxStatus::NoKey));
    c.s.testnet_secret_key = Some("STEST".to_string());
    let req = c.fetch_and_generate_xdr_action().unwrap();
    assert_eq!(req.secret, "STEST");
    assert_eq!(req.network, NetworkEnvironment::Test);
    assert!(matches!(c.s.submission_status, TxStatus::FetchingSequence));
    c.finish_generate_xdr(Ok(("ENVELOPE".to_string(), 9)), "Testnet".to_string());
    assert_eq!(c.s.generated_xdr, "ENVELOPE");
    let req = c.submit_transaction_action().unwrap();
    assert_eq!(req.xdr, "ENVELOPE");
    assert!(matches!(c.s.submission_status, TxStatus::Submitting));
    c.finish_submit(Err("tx_bad_seq".to_string()));
    assert!(matches!(&c.s.submission_status, TxStatus::Error(e) if e == "tx_bad_seq"));
}

#[test]
fn ping_and_scan() {
    let mut c = wallet();
    assert!(c.ping_contract_action().is_none());
    assert_eq!(c.s.ping_status.as_deref(), Some("\u{26A0}\u{FE0F} Load a key first (Settings tab)."));
    c.generate_key(("GPUB".to_string(), "SSEC".to_string()));
    let req = c.ping_contract_action().unwrap();
    c.finish_ping(&req, Ok("pong".to_string()));
    assert_eq!(c.s.ping_status.as_deref(), Some("\u{2705} pong"));
    c.finish_ping(&req, Err("timeout".to_string()));
    assert_eq!(c.s.ping_status.as_deref(), Some("\u{274C} timeout"));

    let lang = c.scan_qr_action();
    assert_eq!(lang, Language::English);
    assert!(c.s.ping_status.is_some());
    let _ = c.finish_scan_qr(lang, Err("cancelled".to_string()));
    assert!(c.s.ping_status.is_none());
}

#[test]
fn lock_amount_must_be_positive_whole_number() {
    let mut c = wallet();
    c.generate_key(("GPUB".to_string(), "SSEC".to_string()));
    for bad in ["", "0", "-3", "1.5", "abc", "18446744073709551616"] {
        c.s.lock_amount = bad.to_string();
        assert!(c.lock_zsozso_action().is_none());
        assert_eq!(c.s.zs_status.as_deref(), Some("Please enter a valid amount."));
    }
    c.s.lock_amount = "  25 ".to_string();
    let req = c.lock_zsozso_action().unwrap();
    assert_eq!(req.amount, 25);
    assert_eq!(req.secret, "SSEC");
    assert_eq!(c.s.zs_status.as_deref(), Some("\u{1F512} Locking ZSOZSO..."));
    c.finish_lock(&req, Ok(()));
    assert_eq!(c.s.zs_status.as_deref(), Some("\u{2705} Locked 25 ZSOZSO"));
    assert_eq!(c.s.lock_amount, "");
}

#[test]
fn typed_amount_is_taken_exactly() {
    for n in [1u64, 7, 100, 123456, u64::MAX] {
        let mut c = wallet();
        c.generate_key(("GPUB".to_string(), "SSEC".to_string()));
        c.s.lock_amount = n.to_string();
        assert_eq!(c.unlock_zsozso_action().unwrap().amount, n);
        assert_eq!(c.s.zs_status.as_deref(), Some("\u{1F513} Unlocking ZSOZSO..."));
    }
}

#[test]
fn lock_without_key() {
    let mut c = wallet();
    c.s.lock_amount = "5".to_string();
    assert!(c.lock_zsozso_action().is_none());
    assert_eq!(c.s.zs_status.as_deref(), Some("Load a key first in Settings."));
}

#[test]
fn screen_notices() {
    let mut c = wallet();
    c.show_cyf_not_implemented("mint");
    assert_eq!(c.s.cyf_modal_message.as_deref(), Some("The mint function is not yet implemented."));
    c.show_lock_not_connected(false);
    assert_eq!(c.s.cyf_modal_message.as_deref(), Some("Unlock function is not yet connected to the deployed contract."));
    c.select_tab(Tab::Log);
    assert_eq!(c.s.active_tab, Tab::Log);
    c.s.mainnet_show_secret = true;
    c.hide_secret_for_network(NetworkEnvironment::Production);
    assert!(!c.s.mainnet_show_secret);
    c.set_pin_code("1234".to_string());
    assert_eq!(c.s.pin_code, "1234");
}

#[test]
fn relay_peers() {
    let mut c = wallet();
    assert!(c.gun_peers().is_empty());
    c.s.gun_relay_url = "   ".to_string();
    assert!(c.gun_peers().is_empty());
    c.s.gun_relay_url = "wss://relay.example/gun".to_string();
    assert_eq!(c.gun_peers(), vec!["wss://relay.example/gun".to_string()]);
}
