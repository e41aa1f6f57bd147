use vstd::prelude::*;
use crate::language::Language;
use crate::text::{decimal_usize, decimal_i64};
use super::UiI18n;

verus! {

/// The Hungarian interface text.
pub struct HungarianUi;

impl UiI18n for HungarianUi {
    open spec fn lang(&self) -> Language {
        Language::Hungarian
    }

    fn no_key_loaded(&self) -> (r: &'static str) {
        "Nincs kulcs betöltve"
    }

    fn copy_label(&self) -> (r: &'static str) {
        "Másolás"
    }

    fn copy_xdr_label(&self) -> (r: &'static str) {
        "XDR Másolása"
    }

    fn waiting(&self) -> (r: &'static str) {
        "Várakozás..."
    }

    fn err_no_generated_xdr(&self) -> (r: &'static str) {
        "Hiba: Nincs generált XDR!"
    }

    fn submitting(&self) -> (r: &'static str) {
        "Beküldés folyamatban..."
    }

    fn calling_faucet(&self) -> (r: &'static str) {
        "🚀 Faucet hívása..."
    }

    fn no_loaded_key(&self) -> (r: &'static str) {
        "⚠️ Nincs betöltött kulcs!"
    }

    fn fetching_sequence(&self) -> (r: &'static str) {
        "🔍 Szekvenciaszám lekérése..."
    }

    fn clipboard_cleared(&self) -> (r: &'static str) {
        "🔐 Vágólap törölve a biztonság érdekében."
    }

    fn save_success(&self) -> (r: &'static str) {
        "✅ Sikeres mentés a rendszer-tárcába!"
    }

    fn nothing_to_save(&self) -> (r: &'static str) {
        "⚠️ Nincs mit menteni (üres a kulcs)!"
    }

    fn loading_started(&self) -> (r: &'static str) {
        "🔍 Betöltés megkezdése..."
    }

    fn key_loaded_len(&self, len: usize) -> (r: String) {
        let mut r = "📥 Kulcs betöltve, hossza: ".to_owned();
        r.append(decimal_usize(len).as_str());
        r
    }

    fn ui_updated_with_key(&self) -> (r: &'static str) {
        "✨ UI sikeresen frissítve a betöltött kulccsal."
    }

    fn fmt_success(&self, msg: &str) -> (r: String) {
        let mut r = "✅ SIKER! ".to_owned();
        r.append(msg);
        r
    }

    fn fmt_error(&self, e: &str) -> (r: String) {
        let mut r = "❌ ".to_owned();
        r.append(e);
        r
    }

    fn fmt_xdr_ready(&self, net: &str, seq: i64) -> (r: String) {
        let mut r = "✅ XDR Kész! [".to_owned();
        r.append(net);
        r.append("] (Seq: ");
        r.append(decimal_i64(seq).as_str());
        r.append(")");
        r
    }

    fn btn_new_key(&self) -> (r: &'static str) {
        "✨ Új Kulcs"
    }

    fn btn_import(&self) -> (r: &'static str) {
        "📥 Import"
    }

    fn btn_hide_secret(&self) -> (r: &'static str) {
        "🙈 Elrejtés"
    }

    fn btn_reveal_secret(&self) -> (r: &'static str) {
        "👁 Felfedés"
    }

    fn btn_activate_faucet(&self) -> (r: &'static str) {
        "🚀 Aktiválás (Faucet)"
    }

    fn btn_save_to_os(&self) -> (r: &'static str) {
        "💾 Mentés az OS tárcába"
    }

    fn btn_load(&self) -> (r: &'static str) {
        "🔓 Betöltés"
    }

    fn btn_generate_xdr(&self) -> (r: &'static str) {
        "🛠 Tranzakció XDR Generálása"
    }

    fn btn_submit_tx(&self) -> (r: &'static str) {
        "🚀 Tranzakció BEKÜLDÉSE"
    }

    fn lbl_active_address(&self) -> (r: &'static str) {
        "Aktív Cím (Public Key):"
    }

    fn lbl_signed_xdr(&self) -> (r: &'static str) {
        "ALÁÍRT XDR:"
    }

    fn lbl_import_ph(&self) -> (r: &'static str) {
        "Importálás (S...)"
    }

    fn net_testnet_label(&self) -> (r: &'static str) {
        "🧪 Testnet ⚠️"
    }

    fn net_mainnet_label(&self) -> (r: &'static str) {
        "Mainnet"
    }

    fn copied(&self) -> (r: &'static str) {
        "MÁSOLVA!"
    }

    fn clipboard_modal_text(&self) -> (r: &'static str) {
        "A tartalom a vágólapra került. Amikor bezárod ezt az ablakot, a vágólap tartalma biztonsági okokból törlődik."
    }

    fn btn_clear_clipboard(&self) -> (r: &'static str) {
        "🗑️ Törlöm a vágólap tartalmát"
    }

    fn tab_cyf(&self) -> (r: &'static str) {
        "CYF"
    }

    fn tab_networking(&self) -> (r: &'static str) {
        "Hálózat"
    }

    fn tab_info(&self) -> (r: &'static str) {
        "Infó"
    }

    fn tab_settings(&self) -> (r: &'static str) {
        "Beállítások"
    }

    fn gate_title(&self) -> (r: &'static str) {
        "Üdvözöl a Zsozso"
    }

    fn btn_next(&self) -> (r: &'static str) {
        "Tovább"
    }

    fn authenticating(&self) -> (r: &'static str) {
        "Hitelesítés..."
    }

    fn auth_failed(&self) -> (r: &'static str) {
        "A hitelesítés sikertelen"
    }

    fn btn_exit(&self) -> (r: &'static str) {
        "Kilépés"
    }

    fn no_prf_key(&self) -> (r: &'static str) {
        "Nincs passkey titkosítási kulcs. Először hitelesítsd magad újra."
    }

    fn info_public_key_label(&self) -> (r: &'static str) {
        "Publikus Kulcsod"
    }

    fn info_no_key(&self) -> (r: &'static str) {
        "Nincs betöltött kulcs. Generálj vagy importálj egyet a Beállításokban."
    }

    fn btn_ping(&self) -> (r: &'static str) {
        "\u{1F3D3} Ping"
    }

    fn ping_calling(&self) -> (r: &'static str) {
        "\u{1F4E1} Szerződés hívása..."
    }

    fn ping_success(&self, msg: &str) -> (r: String) {
        let mut r = "\u{2705} ".to_owned();
        r.append(msg);
        r
    }

    fn ping_error(&self, e: &str) -> (r: String) {
        let mut r = "\u{274C} ".to_owned();
        r.append(e);
        r
    }

    fn ping_no_key(&self) -> (r: &'static str) {
        "\u{26A0}\u{FE0F} Előbb tölts be egy kulcsot (Beállítások fül)."
    }

    fn btn_scan_qr(&self) -> (r: &'static str) {
        "\u{1F4F7} QR Szkennelés"
    }

    fn scan_scanning(&self) -> (r: &'static str) {
        "\u{1F4F7} Szkennelés..."
    }

    fn scan_success(&self, key: &str) -> (r: String) {
        let mut r = "\u{2705} Beolvasva: ".to_owned();
        r.append(key);
        r
    }

    fn scan_error(&self, e: &str) -> (r: String) {
        let mut r = "\u{274C} Szkennelés sikertelen: ".to_owned();
        r.append(e);
        r
    }

    fn tab_log(&self) -> (r: &'static str) {
        "Napló"
    }

    fn log_refresh(&self) -> (r: &'static str) {
        "\u{1F504} Frissítés"
    }

    fn log_clear(&self) -> (r: &'static str) {
        "\u{1F5D1} Törlés"
    }

    fn log_save(&self) -> (r: &'static str) {
        "\u{1F4BE} Mentés"
    }

    fn log_saving(&self) -> (r: &'static str) {
        "Mentés..."
    }

    fn log_save_ok(&self) -> (r: &'static str) {
        "\u{2705} Napló mentve"
    }

    fn log_save_fail(&self, e: &str) -> (r: String) {
        let mut r = "\u{274C} Mentés sikertelen: ".to_owned();
        r.append(e);
        r
    }

    fn log_save_empty(&self) -> (r: &'static str) {
        "\u{26A0}\u{FE0F} A napló üres"
    }

    fn btn_dump_gun_db(&self) -> (r: &'static str) {
        "\u{1F4E6} GUN DB mentés"
    }

    fn log_dumping(&self) -> (r: &'static str) {
        "GUN DB mentése..."
    }

    fn log_dump_ok(&self) -> (r: &'static str) {
        "\u{2705} GUN DB mentve"
    }

    fn toast_update_available(&self) -> (r: &'static str) {
        "\u{1F680} A Zsozso új verziója elérhető!"
    }

    fn btn_update_now(&self) -> (r: &'static str) {
        "Frissítés most"
    }

    fn info_version(&self, ver: &str) -> (r: String) {
        let mut r = "Verzió: ".to_owned();
        r.append(ver);
        r
    }

    fn network_switch_save_prompt(&self) -> (r: &'static str) {
        "Van betöltött titkos kulcsod. Szeretnéd elmenteni a hálózatváltás előtt?"
    }

    fn btn_save_and_switch(&self) -> (r: &'static str) {
        "\u{1F4BE} Mentés és váltás"
    }

    fn btn_switch_and_save(&self) -> (r: &'static str) {
        "\u{1F504} Váltás és mentés"
    }

    fn btn_switch_without_saving(&self) -> (r: &'static str) {
        "Váltás mentés nélkül"
    }

    fn btn_cancel(&self) -> (r: &'static str) {
        "Mégse"
    }

    fn btn_generate_db_secret(&self) -> (r: &'static str) {
        "\u{1F511} DB Titok Generálása"
    }

    fn sea_modal_title(&self) -> (r: &'static str) {
        "GunDB SEA Kulcsok Generálása"
    }

    fn sea_modal_placeholder(&self) -> (r: &'static str) {
        "Írd be a titkos jelszót..."
    }

    fn btn_generate_db_keys(&self) -> (r: &'static str) {
        "\u{1F511} DB Kulcsok Generálása"
    }

    fn sea_generating(&self) -> (r: &'static str) {
        "\u{1F504} Kulcsok generálása..."
    }

    fn sea_keys_generated(&self) -> (r: &'static str) {
        "\u{2705} SEA kulcsok generálva és betöltve a memóriába."
    }

    fn sea_generation_error(&self, e: &str) -> (r: String) {
        let mut r = "\u{274C} Kulcsgenerálás sikertelen: ".to_owned();
        r.append(e);
        r
    }

    fn btn_close(&self) -> (r: &'static str) {
        "Bezárás"
    }

    fn lbl_biometric(&self) -> (r: &'static str) {
        "Biometrikus azonosítás"
    }

    fn lbl_biometric_desc(&self) -> (r: &'static str) {
        "Biometrikus hitelesítés használata a tárca védelméhez"
    }

    fn biometric_required_to_save(&self) -> (r: &'static str) {
        "Kérjük, először kapcsold be a Biometrikus azonosítást a Beállításokban a titok mentése előtt."
    }

    fn lbl_nickname(&self) -> (r: &'static str) {
        "Becenév"
    }

    fn lbl_nickname_ph(&self) -> (r: &'static str) {
        "Írd be a beceneved..."
    }

    fn btn_save_nickname(&self) -> (r: &'static str) {
        "\u{1F4BE} Mentés"
    }

    fn nickname_saved(&self) -> (r: &'static str) {
        "\u{2705} Becenév mentve!"
    }

    fn nickname_save_error(&self, e: &str) -> (r: String) {
        let mut r = "\u{274C} Becenév mentése sikertelen: ".to_owned();
        r.append(e);
        r
    }

    fn lbl_parents(&self) -> (r: &'static str) {
        "Szülők"
    }

    fn lbl_workers(&self) -> (r: &'static str) {
        "Munkatársak"
    }

    fn btn_new_worker(&self) -> (r: &'static str) {
        "\u{2795} Új"
    }

    fn network_no_key(&self) -> (r: &'static str) {
        "\u{26A0}\u{FE0F} Előbb tölts be egy kulcsot (Beállítások fül)."
    }

    fn network_add_worker_success(&self, key: &str) -> (r: String) {
        let mut r = "\u{2705} Munkatárs hozzáadva: ".to_owned();
        r.append(key);
        r
    }

    fn network_add_worker_error(&self, e: &str) -> (r: String) {
        let mut r = "\u{274C} Munkatárs hozzáadása sikertelen: ".to_owned();
        r.append(e);
        r
    }

    fn btn_burn(&self) -> (r: &'static str) {
        "\u{1F525} Égetés"
    }

    fn btn_mint(&self) -> (r: &'static str) {
        "\u{1FA99} Kibocsátás"
    }

    fn btn_ok(&self) -> (r: &'static str) {
        "OK"
    }

    fn cyf_not_implemented(&self, fn_name: &str) -> (r: String) {
        let mut r = "A(z) ".to_owned();
        r.append(fn_name);
        r.append(" funkció még nincs implementálva.");
        r
    }

    fn lbl_gun_address(&self) -> (r: &'static str) {
        "GUN csomópont cím"
    }

    fn lbl_gun_relay_url(&self) -> (r: &'static str) {
        "GUN Relay URL"
    }

    fn lbl_gun_relay_ph(&self) -> (r: &'static str) {
        "https://your-server.com/gun"
    }

    fn btn_save_gun_relay(&self) -> (r: &'static str) {
        "Mentés"
    }

    fn sss_modal_title(&self) -> (r: &'static str) {
        "\u{1F512} Visszaállítási részletek"
    }

    fn sss_modal_description(&self) -> (r: &'static str) {
        "Oszd el ezeket a részleteket a megbízható csomópontjaid között. Bármely 3 a 7-ből elegendő az agy-titok visszaállításához."
    }

    fn sss_share_label(&self, n: usize) -> (r: String) {
        let mut r = decimal_usize(n);
        r.append(". részlet");
        r
    }

    fn btn_copy_share(&self) -> (r: &'static str) {
        "\u{1F4CB} Másolás"
    }

    fn sss_share_copied(&self) -> (r: &'static str) {
        "\u{2705} Másolva!"
    }

    fn tab_zsozso(&self) -> (r: &'static str) {
        "ZS"
    }

    fn lbl_xlm_balance(&self) -> (r: &'static str) {
        "XLM"
    }

    fn lbl_zsozso_balance(&self) -> (r: &'static str) {
        "ZSOZSO"
    }

    fn lbl_locked_zsozso(&self) -> (r: &'static str) {
        "Zárolt ZSOZSO"
    }

    fn btn_lock(&self) -> (r: &'static str) {
        "\u{1F512} Zárolás"
    }

    fn btn_unlock(&self) -> (r: &'static str) {
        "\u{1F513} Feloldás"
    }

    fn btn_refresh_balances(&self) -> (r: &'static str) {
        "\u{1F504} Frissítés"
    }

    fn zs_fetching_balances(&self) -> (r: &'static str) {
        "\u{1F504} Egyenlegek lekérése..."
    }

    fn zs_mainnet_only(&self) -> (r: &'static str) {
        "A ZSOZSO csak Mainnet-en elérhető. Válts Mainnet-re a Beállításokban."
    }

    fn zs_no_key(&self) -> (r: &'static str) {
        "Előbb tölts be egy kulcsot a Beállításokban."
    }

    fn zs_locking(&self) -> (r: &'static str) {
        "\u{1F512} ZSOZSO zárolása..."
    }

    fn zs_unlocking(&self) -> (r: &'static str) {
        "\u{1F513} ZSOZSO feloldása..."
    }

    fn fmt_zs_lock_success(&self, amount: &str) -> (r: String) {
        let mut r = "\u{2705} ".to_owned();
        r.append(amount);
        r.append(" ZSOZSO zárolva");
        r
    }

    fn fmt_zs_unlock_success(&self, amount: &str) -> (r: String) {
        let mut r = "\u{2705} ".to_owned();
        r.append(amount);
        r.append(" ZSOZSO feloldva");
        r
    }

    fn fmt_zs_lock_error(&self, err: &str) -> (r: String) {
        let mut r = "\u{274C} Zárolás sikertelen: ".to_owned();
        r.append(err);
        r
    }

    fn fmt_zs_unlock_error(&self, err: &str) -> (r: String) {
        let mut r = "\u{274C} Feloldás sikertelen: ".to_owned();
        r.append(err);
        r
    }

    fn zs_invalid_amount(&self) -> (r: &'static str) {
        "Kérlek, adj meg egy érvényes összeget."
    }

    fn lbl_amount(&self) -> (r: &'static str) {
        "Összeg"
    }

    fn lbl_mainnet_account(&self) -> (r: &'static str) {
        "Mainnet Fiók"
    }

    fn lbl_testnet_account(&self) -> (r: &'static str) {
        "Testnet Fiók"
    }

    fn lbl_no_account(&self) -> (r: &'static str) {
        "Nincs fiók"
    }

    fn tab_home(&self) -> (r: &'static str) {
        "CYF"
    }

    fn lbl_mainnet_keys(&self) -> (r: &'static str) {
        "Mainnet Kulcs"
    }

    fn lbl_testnet_keys(&self) -> (r: &'static str) {
        "Testnet Kulcs"
    }

    fn lbl_pin_code(&self) -> (r: &'static str) {
        "PIN Kód"
    }

    fn lbl_pin_code_desc(&self) -> (r: &'static str) {
        "Állítson be PIN kódot a tárca védelméhez (csak localhost)"
    }

    fn lbl_pin_code_ph(&self) -> (r: &'static str) {
        "PIN megadása..."
    }

    fn btn_set_pin(&self) -> (r: &'static str) {
        "PIN Beállítása"
    }

}

} // verus!
