use vstd::prelude::*;
use crate::language::Language;
use crate::text::{decimal_usize, decimal_i64};
use super::UiI18n;

verus! {

/// The English interface text.
pub struct EnglishUi;

impl UiI18n for EnglishUi {
    open spec fn lang(&self) -> Language {
        Language::English
    }

    fn no_key_loaded(&self) -> (r: &'static str) {
        "No key loaded"
    }

    fn copy_label(&self) -> (r: &'static str) {
        "Copy"
    }

    fn copy_xdr_label(&self) -> (r: &'static str) {
        "Copy XDR"
    }

    fn waiting(&self) -> (r: &'static str) {
        "Waiting..."
    }

    fn err_no_generated_xdr(&self) -> (r: &'static str) {
        "Error: No generated XDR!"
    }

    fn submitting(&self) -> (r: &'static str) {
        "Submitting..."
    }

    fn calling_faucet(&self) -> (r: &'static str) {
        "🚀 Calling faucet..."
    }

    fn no_loaded_key(&self) -> (r: &'static str) {
        "⚠️ No loaded key!"
    }

    fn fetching_sequence(&self) -> (r: &'static str) {
        "🔍 Fetching sequence number..."
    }

    fn clipboard_cleared(&self) -> (r: &'static str) {
        "🔐 Clipboard cleared for security."
    }

    fn save_success(&self) -> (r: &'static str) {
        "✅ Successfully saved to system wallet!"
    }

    fn nothing_to_save(&self) -> (r: &'static str) {
        "⚠️ Nothing to save (key is empty)!"
    }

    fn loading_started(&self) -> (r: &'static str) {
        "🔍 Loading started..."
    }

    fn key_loaded_len(&self, len: usize) -> (r: String) {
        let mut r = "📥 Key loaded, length: ".to_owned();
        r.append(decimal_usize(len).as_str());
        r
    }

    fn ui_updated_with_key(&self) -> (r: &'static str) {
        "✨ UI successfully updated with loaded key."
    }

    fn fmt_success(&self, msg: &str) -> (r: String) {
        let mut r = "✅ SUCCESS! ".to_owned();
        r.append(msg);
        r
    }

    fn fmt_error(&self, e: &str) -> (r: String) {
        let mut r = "❌ ".to_owned();
        r.append(e);
        r
    }

    fn fmt_xdr_ready(&self, net: &str, seq: i64) -> (r: String) {
        let mut r = "✅ XDR Ready! [".to_owned();
        r.append(net);
        r.append("] (Seq: ");
        r.append(decimal_i64(seq).as_str());
        r.append(")");
        r
    }

    fn btn_new_key(&self) -> (r: &'static str) {
        "✨ New Key"
    }

    fn btn_import(&self) -> (r: &'static str) {
        "📥 Import"
    }

    fn btn_hide_secret(&self) -> (r: &'static str) {
        "🙈 Hide"
    }

    fn btn_reveal_secret(&self) -> (r: &'static str) {
        "👁 Reveal"
    }

    fn btn_activate_faucet(&self) -> (r: &'static str) {
        "🚀 Activate (Faucet)"
    }

    fn btn_save_to_os(&self) -> (r: &'static str) {
        "💾 Save to OS Wallet"
    }

    fn btn_load(&self) -> (r: &'static str) {
        "🔓 Load"
    }

    fn btn_generate_xdr(&self) -> (r: &'static str) {
        "🛠 Generate Transaction XDR"
    }

    fn btn_submit_tx(&self) -> (r: &'static str) {
        "🚀 SUBMIT Transaction"
    }

    fn lbl_active_address(&self) -> (r: &'static str) {
        "Active Address (Public Key):"
    }

    fn lbl_signed_xdr(&self) -> (r: &'static str) {
        "SIGNED XDR:"
    }

    fn lbl_import_ph(&self) -> (r: &'static str) {
        "Import (S...)"
    }

    fn net_testnet_label(&self) -> (r: &'static str) {
        "🧪 Testnet ⚠️"
    }

    fn net_mainnet_label(&self) -> (r: &'static str) {
        "Mainnet"
    }

    fn copied(&self) -> (r: &'static str) {
        "COPIED!"
    }

    fn clipboard_modal_text(&self) -> (r: &'static str) {
        "The content has been copied to the clipboard. When you close this dialog, the clipboard will be cleared for security."
    }

    fn btn_clear_clipboard(&self) -> (r: &'static str) {
        "🗑️ Clear clipboard content"
    }

    fn tab_cyf(&self) -> (r: &'static str) {
        "CYF"
    }

    fn tab_networking(&self) -> (r: &'static str) {
        "Network"
    }

    fn tab_info(&self) -> (r: &'static str) {
        "Info"
    }

    fn tab_settings(&self) -> (r: &'static str) {
        "Settings"
    }

    fn gate_title(&self) -> (r: &'static str) {
        "Welcome to Zsozso"
    }

    fn btn_next(&self) -> (r: &'static str) {
        "Next"
    }

    fn authenticating(&self) -> (r: &'static str) {
        "Authenticating..."
    }

    fn auth_failed(&self) -> (r: &'static str) {
        "Authentication failed"
    }

    fn btn_exit(&self) -> (r: &'static str) {
        "Exit now"
    }

    fn no_prf_key(&self) -> (r: &'static str) {
        "No passkey encryption key available. Re-authenticate first."
    }

    fn info_public_key_label(&self) -> (r: &'static str) {
        "Your Public Key"
    }

    fn info_no_key(&self) -> (r: &'static str) {
        "No key loaded. Generate or import one in Settings."
    }

    fn btn_ping(&self) -> (r: &'static str) {
        "\u{1F3D3} Ping"
    }

    fn ping_calling(&self) -> (r: &'static str) {
        "\u{1F4E1} Calling contract..."
    }

    fn ping_success(&self, msg: &str) -> (r: String) {
        let mut r = "\u{2705} ".to_owned();
        r.append(msg);
        r
    }

    fn ping_error(&self, e: &str) -> (r: String) {
        let mut r = "\u{274C} ".to_owned();
        r.append(e);
        r
    }

    fn ping_no_key(&self) -> (r: &'static str) {
        "\u{26A0}\u{FE0F} Load a key first (Settings tab)."
    }

    fn btn_scan_qr(&self) -> (r: &'static str) {
        "\u{1F4F7} Scan QR"
    }

    fn scan_scanning(&self) -> (r: &'static str) {
        "\u{1F4F7} Scanning..."
    }

    fn scan_success(&self, key: &str) -> (r: String) {
        let mut r = "\u{2705} Scanned: ".to_owned();
        r.append(key);
        r
    }

    fn scan_error(&self, e: &str) -> (r: String) {
        let mut r = "\u{274C} Scan failed: ".to_owned();
        r.append(e);
        r
    }

    fn tab_log(&self) -> (r: &'static str) {
        "Log"
    }

    fn log_refresh(&self) -> (r: &'static str) {
        "\u{1F504} Refresh"
    }

    fn log_clear(&self) -> (r: &'static str) {
        "\u{1F5D1} Clear"
    }

    fn log_save(&self) -> (r: &'static str) {
        "\u{1F4BE} Save"
    }

    fn log_saving(&self) -> (r: &'static str) {
        "Saving..."
    }

    fn log_save_ok(&self) -> (r: &'static str) {
        "\u{2705} Log saved"
    }

    fn log_save_fail(&self, e: &str) -> (r: String) {
        let mut r = "\u{274C} Save failed: ".to_owned();
        r.append(e);
        r
    }

    fn log_save_empty(&self) -> (r: &'static str) {
        "\u{26A0}\u{FE0F} Log is empty"
    }

    fn btn_dump_gun_db(&self) -> (r: &'static str) {
        "\u{1F4E6} Dump GUN DB"
    }

    fn log_dumping(&self) -> (r: &'static str) {
        "Dumping GUN DB..."
    }

    fn log_dump_ok(&self) -> (r: &'static str) {
        "\u{2705} GUN DB dump saved"
    }

    fn toast_update_available(&self) -> (r: &'static str) {
        "\u{1F680} A new version of Zsozso is available!"
    }

    fn btn_update_now(&self) -> (r: &'static str) {
        "Update Now"
    }

    fn info_version(&self, ver: &str) -> (r: String) {
        let mut r = "Version: ".to_owned();
        r.append(ver);
        r
    }

    fn network_switch_save_prompt(&self) -> (r: &'static str) {
        "You have a secret key loaded. Would you like to save it before switching networks?"
    }

    fn btn_save_and_switch(&self) -> (r: &'static str) {
        "\u{1F4BE} Save & Switch"
    }

    fn btn_switch_and_save(&self) -> (r: &'static str) {
        "\u{1F504} Switch & Save"
    }

    fn btn_switch_without_saving(&self) -> (r: &'static str) {
        "Switch without saving"
    }

    fn btn_cancel(&self) -> (r: &'static str) {
        "Cancel"
    }

    fn btn_generate_db_secret(&self) -> (r: &'static str) {
        "\u{1F511} Generate DB Secret"
    }

    fn sea_modal_title(&self) -> (r: &'static str) {
        "Generate GunDB SEA Keys"
    }

    fn sea_modal_placeholder(&self) -> (r: &'static str) {
        "Enter secret passphrase..."
    }

    fn btn_generate_db_keys(&self) -> (r: &'static str) {
        "\u{1F511} Generate DB Keys"
    }

    fn sea_generating(&self) -> (r: &'static str) {
        "\u{1F504} Generating keys..."
    }

    fn sea_keys_generated(&self) -> (r: &'static str) {
        "\u{2705} SEA keys generated and loaded into memory."
    }

    fn sea_generation_error(&self, e: &str) -> (r: String) {
        let mut r = "\u{274C} Key generation failed: ".to_owned();
        r.append(e);
        r
    }

    fn btn_close(&self) -> (r: &'static str) {
        "Close"
    }

    fn lbl_biometric(&self) -> (r: &'static str) {
        "Biometric Identification"
    }

    fn lbl_biometric_desc(&self) -> (r: &'static str) {
        "Use biometric authentication to protect your wallet"
    }

    fn biometric_required_to_save(&self) -> (r: &'static str) {
        "Please enable Biometric Identification in Settings before saving your secret."
    }

    fn lbl_nickname(&self) -> (r: &'static str) {
        "Nickname"
    }

    fn lbl_nickname_ph(&self) -> (r: &'static str) {
        "Enter your nickname..."
    }

    fn btn_save_nickname(&self) -> (r: &'static str) {
        "\u{1F4BE} Save"
    }

    fn nickname_saved(&self) -> (r: &'static str) {
        "\u{2705} Nickname saved!"
    }

    fn nickname_save_error(&self, e: &str) -> (r: String) {
        let mut r = "\u{274C} Failed to save nickname: ".to_owned();
        r.append(e);
        r
    }

    fn lbl_parents(&self) -> (r: &'static str) {
        "Parents"
    }

    fn lbl_workers(&self) -> (r: &'static str) {
        "Workers"
    }

    fn btn_new_worker(&self) -> (r: &'static str) {
        "\u{2795} New"
    }

    fn network_no_key(&self) -> (r: &'static str) {
        "\u{26A0}\u{FE0F} Load a key first (Settings tab)."
    }

    fn network_add_worker_success(&self, key: &str) -> (r: String) {
        let mut r = "\u{2705} Worker added: ".to_owned();
        r.append(key);
        r
    }

    fn network_add_worker_error(&self, e: &str) -> (r: String) {
        let mut r = "\u{274C} Failed to add worker: ".to_owned();
        r.append(e);
        r
    }

    fn btn_burn(&self) -> (r: &'static str) {
        "\u{1F525} Burn"
    }

    fn btn_mint(&self) -> (r: &'static str) {
        "\u{1FA99} Mint"
    }

    fn btn_ok(&self) -> (r: &'static str) {
        "OK"
    }

    fn cyf_not_implemented(&self, fn_name: &str) -> (r: String) {
        let mut r = "The ".to_owned();
        r.append(fn_name);
        r.append(" function is not yet implemented.");
        r
    }

    fn lbl_gun_address(&self) -> (r: &'static str) {
        "GUN Node Address"
    }

    fn lbl_gun_relay_url(&self) -> (r: &'static str) {
        "GUN Relay URL"
    }

    fn lbl_gun_relay_ph(&self) -> (r: &'static str) {
        "https://your-server.com/gun"
    }

    fn btn_save_gun_relay(&self) -> (r: &'static str) {
        "Save"
    }

    fn sss_modal_title(&self) -> (r: &'static str) {
        "\u{1F512} Recovery Shares"
    }

    fn sss_modal_description(&self) -> (r: &'static str) {
        "Distribute these shares to your trusted nodes. Any 3 of 7 can reconstruct your brain-secret."
    }

    fn sss_share_label(&self, n: usize) -> (r: String) {
        let mut r = "Share ".to_owned();
        r.append(decimal_usize(n).as_str());
        r
    }

    fn btn_copy_share(&self) -> (r: &'static str) {
        "\u{1F4CB} Copy"
    }

    fn sss_share_copied(&self) -> (r: &'static str) {
        "\u{2705} Copied!"
    }

    fn tab_zsozso(&self) -> (r: &'static str) {
        "ZS"
    }

    fn lbl_xlm_balance(&self) -> (r: &'static str) {
        "XLM"
    }

    fn lbl_zsozso_balance(&self) -> (r: &'static str) {
        "ZSOZSO"
    }

    fn lbl_locked_zsozso(&self) -> (r: &'static str) {
        "Locked ZSOZSO"
    }

    fn btn_lock(&self) -> (r: &'static str) {
        "\u{1F512} Lock"
    }

    fn btn_unlock(&self) -> (r: &'static str) {
        "\u{1F513} Unlock"
    }

    fn btn_refresh_balances(&self) -> (r: &'static str) {
        "\u{1F504} Refresh"
    }

    fn zs_fetching_balances(&self) -> (r: &'static str) {
        "\u{1F504} Fetching balances..."
    }

    fn zs_mainnet_only(&self) -> (r: &'static str) {
        "ZSOZSO is only available on Mainnet. Switch to Mainnet in Settings."
    }

    fn zs_no_key(&self) -> (r: &'static str) {
        "Load a key first in Settings."
    }

    fn zs_locking(&self) -> (r: &'static str) {
        "\u{1F512} Locking ZSOZSO..."
    }

    fn zs_unlocking(&self) -> (r: &'static str) {
        "\u{1F513} Unlocking ZSOZSO..."
    }

    fn fmt_zs_lock_success(&self, amount: &str) -> (r: String) {
        let mut r = "\u{2705} Locked ".to_owned();
        r.append(amount);
        r.append(" ZSOZSO");
        r
    }

    fn fmt_zs_unlock_success(&self, amount: &str) -> (r: String) {
        let mut r = "\u{2705} Unlocked ".to_owned();
        r.append(amount);
        r.append(" ZSOZSO");
        r
    }

    fn fmt_zs_lock_error(&self, err: &str) -> (r: String) {
        let mut r = "\u{274C} Lock failed: ".to_owned();
        r.append(err);
        r
    }

    fn fmt_zs_unlock_error(&self, err: &str) -> (r: String) {
        let mut r = "\u{274C} Unlock failed: ".to_owned();
        r.append(err);
        r
    }

    fn zs_invalid_amount(&self) -> (r: &'static str) {
        "Please enter a valid amount."
    }

    fn lbl_amount(&self) -> (r: &'static str) {
        "Amount"
    }

    fn lbl_mainnet_account(&self) -> (r: &'static str) {
        "Mainnet Account"
    }

    fn lbl_testnet_account(&self) -> (r: &'static str) {
        "Testnet Account"
    }

    fn lbl_no_account(&self) -> (r: &'static str) {
        "No account"
    }

    fn tab_home(&self) -> (r: &'static str) {
        "CYF"
    }

    fn lbl_mainnet_keys(&self) -> (r: &'static str) {
        "Mainnet Account"
    }

    fn lbl_testnet_keys(&self) -> (r: &'static str) {
        "Testnet Account"
    }

    fn lbl_pin_code(&self) -> (r: &'static str) {
        "PIN Code"
    }

    fn lbl_pin_code_desc(&self) -> (r: &'static str) {
        "Set a PIN code to protect your wallet (localhost only)"
    }

    fn lbl_pin_code_ph(&self) -> (r: &'static str) {
        "Enter PIN..."
    }

    fn btn_set_pin(&self) -> (r: &'static str) {
        "Set PIN"
    }

}

} // verus!
