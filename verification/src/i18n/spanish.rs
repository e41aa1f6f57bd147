use vstd::prelude::*;
use crate::language::Language;
use crate::text::{decimal_usize, decimal_i64};
use super::UiI18n;

verus! {

/// The Spanish interface text.
pub struct SpanishUi;

impl UiI18n for SpanishUi {
    open spec fn lang(&self) -> Language {
        Language::Spanish
    }

    fn no_key_loaded(&self) -> (r: &'static str) {
        "Ninguna clave cargada"
    }

    fn copy_label(&self) -> (r: &'static str) {
        "Copiar"
    }

    fn copy_xdr_label(&self) -> (r: &'static str) {
        "Copiar XDR"
    }

    fn waiting(&self) -> (r: &'static str) {
        "Esperando..."
    }

    fn err_no_generated_xdr(&self) -> (r: &'static str) {
        "Error: ¡No hay XDR generado!"
    }

    fn submitting(&self) -> (r: &'static str) {
        "Enviando..."
    }

    fn calling_faucet(&self) -> (r: &'static str) {
        "🚀 Llamando al faucet..."
    }

    fn no_loaded_key(&self) -> (r: &'static str) {
        "⚠️ ¡No hay clave cargada!"
    }

    fn fetching_sequence(&self) -> (r: &'static str) {
        "🔍 Obteniendo número de secuencia..."
    }

    fn clipboard_cleared(&self) -> (r: &'static str) {
        "🔐 Portapapeles limpiado por seguridad."
    }

    fn save_success(&self) -> (r: &'static str) {
        "✅ ¡Guardado exitosamente en la billetera del sistema!"
    }

    fn nothing_to_save(&self) -> (r: &'static str) {
        "⚠️ ¡Nada que guardar (la clave está vacía)!"
    }

    fn loading_started(&self) -> (r: &'static str) {
        "🔍 Carga iniciada..."
    }

    fn key_loaded_len(&self, len: usize) -> (r: String) {
        let mut r = "📥 Clave cargada, longitud: ".to_owned();
        r.append(decimal_usize(len).as_str());
        r
    }

    fn ui_updated_with_key(&self) -> (r: &'static str) {
        "✨ Interfaz actualizada con la clave cargada."
    }

    fn fmt_success(&self, msg: &str) -> (r: String) {
        let mut r = "✅ ¡ÉXITO! ".to_owned();
        r.append(msg);
        r
    }

    fn fmt_error(&self, e: &str) -> (r: String) {
        let mut r = "❌ ".to_owned();
        r.append(e);
        r
    }

    fn fmt_xdr_ready(&self, net: &str, seq: i64) -> (r: String) {
        let mut r = "✅ ¡XDR listo! [".to_owned();
        r.append(net);
        r.append("] (Sec: ");
        r.append(decimal_i64(seq).as_str());
        r.append(")");
        r
    }

    fn btn_new_key(&self) -> (r: &'static str) {
        "✨ Nueva clave"
    }

    fn btn_import(&self) -> (r: &'static str) {
        "📥 Importar"
    }

    fn btn_hide_secret(&self) -> (r: &'static str) {
        "🙈 Ocultar"
    }

    fn btn_reveal_secret(&self) -> (r: &'static str) {
        "👁 Revelar"
    }

    fn btn_activate_faucet(&self) -> (r: &'static str) {
        "🚀 Activar (Faucet)"
    }

    fn btn_save_to_os(&self) -> (r: &'static str) {
        "💾 Guardar en billetera del SO"
    }

    fn btn_load(&self) -> (r: &'static str) {
        "🔓 Cargar"
    }

    fn btn_generate_xdr(&self) -> (r: &'static str) {
        "🛠 Generar transacción XDR"
    }

    fn btn_submit_tx(&self) -> (r: &'static str) {
        "🚀 ENVIAR Transacción"
    }

    fn lbl_active_address(&self) -> (r: &'static str) {
        "Dirección activa (clave pública):"
    }

    fn lbl_signed_xdr(&self) -> (r: &'static str) {
        "XDR FIRMADO:"
    }

    fn lbl_import_ph(&self) -> (r: &'static str) {
        "Importar (S...)"
    }

    fn net_testnet_label(&self) -> (r: &'static str) {
        "🧪 Testnet ⚠️"
    }

    fn net_mainnet_label(&self) -> (r: &'static str) {
        "Mainnet"
    }

    fn copied(&self) -> (r: &'static str) {
        "¡COPIADO!"
    }

    fn clipboard_modal_text(&self) -> (r: &'static str) {
        "El contenido se ha copiado al portapapeles. Al cerrar este diálogo, el portapapeles se limpiará por seguridad."
    }

    fn btn_clear_clipboard(&self) -> (r: &'static str) {
        "🗑️ Limpiar portapapeles"
    }

    fn tab_cyf(&self) -> (r: &'static str) {
        "CYF"
    }

    fn tab_networking(&self) -> (r: &'static str) {
        "Red"
    }

    fn tab_info(&self) -> (r: &'static str) {
        "Info"
    }

    fn tab_settings(&self) -> (r: &'static str) {
        "Ajustes"
    }

    fn gate_title(&self) -> (r: &'static str) {
        "Bienvenido a Zsozso"
    }

    fn btn_next(&self) -> (r: &'static str) {
        "Siguiente"
    }

    fn authenticating(&self) -> (r: &'static str) {
        "Autenticando..."
    }

    fn auth_failed(&self) -> (r: &'static str) {
        "Autenticación fallida"
    }

    fn btn_exit(&self) -> (r: &'static str) {
        "Salir ahora"
    }

    fn no_prf_key(&self) -> (r: &'static str) {
        "No hay clave de cifrado de passkey disponible. Vuelva a autenticarse."
    }

    fn info_public_key_label(&self) -> (r: &'static str) {
        "Tu clave pública"
    }

    fn info_no_key(&self) -> (r: &'static str) {
        "No hay clave cargada. Genera o importa una en Ajustes."
    }

    fn btn_ping(&self) -> (r: &'static str) {
        "\u{1F3D3} Ping"
    }

    fn ping_calling(&self) -> (r: &'static str) {
        "\u{1F4E1} Llamando al contrato..."
    }

    fn ping_success(&self, msg: &str) -> (r: String) {
        let mut r = "\u{2705} ".to_owned();
        r.append(msg);
        r
    }

    fn ping_error(&self, e: &str) -> (r: String) {
        let mut r = "\u{274C} ".to_owned();
        r.append(e);
        r
    }

    fn ping_no_key(&self) -> (r: &'static str) {
        "\u{26A0}\u{FE0F} Cargue una clave primero (pestaña Ajustes)."
    }

    fn btn_scan_qr(&self) -> (r: &'static str) {
        "\u{1F4F7} Escanear QR"
    }

    fn scan_scanning(&self) -> (r: &'static str) {
        "\u{1F4F7} Escaneando..."
    }

    fn scan_success(&self, key: &str) -> (r: String) {
        let mut r = "\u{2705} Escaneado: ".to_owned();
        r.append(key);
        r
    }

    fn scan_error(&self, e: &str) -> (r: String) {
        let mut r = "\u{274C} Error al escanear: ".to_owned();
        r.append(e);
        r
    }

    fn tab_log(&self) -> (r: &'static str) {
        "Registro"
    }

    fn log_refresh(&self) -> (r: &'static str) {
        "\u{1F504} Actualizar"
    }

    fn log_clear(&self) -> (r: &'static str) {
        "\u{1F5D1} Limpiar"
    }

    fn log_save(&self) -> (r: &'static str) {
        "\u{1F4BE} Guardar"
    }

    fn log_saving(&self) -> (r: &'static str) {
        "Guardando..."
    }

    fn log_save_ok(&self) -> (r: &'static str) {
        "\u{2705} Registro guardado"
    }

    fn log_save_fail(&self, e: &str) -> (r: String) {
        let mut r = "\u{274C} Error al guardar: ".to_owned();
        r.append(e);
        r
    }

    fn log_save_empty(&self) -> (r: &'static str) {
        "\u{26A0}\u{FE0F} El registro está vacío"
    }

    fn btn_dump_gun_db(&self) -> (r: &'static str) {
        "\u{1F4E6} Exportar GUN DB"
    }

    fn log_dumping(&self) -> (r: &'static str) {
        "Exportando GUN DB..."
    }

    fn log_dump_ok(&self) -> (r: &'static str) {
        "\u{2705} GUN DB exportada"
    }

    fn toast_update_available(&self) -> (r: &'static str) {
        "\u{1F680} ¡Una nueva versión de Zsozso está disponible!"
    }

    fn btn_update_now(&self) -> (r: &'static str) {
        "Actualizar ahora"
    }

    fn info_version(&self, ver: &str) -> (r: String) {
        let mut r = "Versión: ".to_owned();
        r.append(ver);
        r
    }

    fn network_switch_save_prompt(&self) -> (r: &'static str) {
        "\u{00BF}Tiene una clave secreta cargada. Desea guardarla antes de cambiar de red?"
    }

    fn btn_save_and_switch(&self) -> (r: &'static str) {
        "\u{1F4BE} Guardar y cambiar"
    }

    fn btn_switch_and_save(&self) -> (r: &'static str) {
        "\u{1F504} Cambiar y guardar"
    }

    fn btn_switch_without_saving(&self) -> (r: &'static str) {
        "Cambiar sin guardar"
    }

    fn btn_cancel(&self) -> (r: &'static str) {
        "Cancelar"
    }

    fn btn_generate_db_secret(&self) -> (r: &'static str) {
        "\u{1F511} Generar secreto DB"
    }

    fn sea_modal_title(&self) -> (r: &'static str) {
        "Generar claves GunDB SEA"
    }

    fn sea_modal_placeholder(&self) -> (r: &'static str) {
        "Ingrese la frase secreta..."
    }

    fn btn_generate_db_keys(&self) -> (r: &'static str) {
        "\u{1F511} Generar claves DB"
    }

    fn sea_generating(&self) -> (r: &'static str) {
        "\u{1F504} Generando claves..."
    }

    fn sea_keys_generated(&self) -> (r: &'static str) {
        "\u{2705} Claves SEA generadas y cargadas en memoria."
    }

    fn sea_generation_error(&self, e: &str) -> (r: String) {
        let mut r = "\u{274C} Error al generar claves: ".to_owned();
        r.append(e);
        r
    }

    fn btn_close(&self) -> (r: &'static str) {
        "Cerrar"
    }

    fn lbl_biometric(&self) -> (r: &'static str) {
        "Identificación biométrica"
    }

    fn lbl_biometric_desc(&self) -> (r: &'static str) {
        "Usar autenticación biométrica para proteger su billetera"
    }

    fn biometric_required_to_save(&self) -> (r: &'static str) {
        "Por favor, active la Identificación biométrica en Ajustes antes de guardar su secreto."
    }

    fn lbl_nickname(&self) -> (r: &'static str) {
        "Apodo"
    }

    fn lbl_nickname_ph(&self) -> (r: &'static str) {
        "Ingrese su apodo..."
    }

    fn btn_save_nickname(&self) -> (r: &'static str) {
        "\u{1F4BE} Guardar"
    }

    fn nickname_saved(&self) -> (r: &'static str) {
        "\u{2705} ¡Apodo guardado!"
    }

    fn nickname_save_error(&self, e: &str) -> (r: String) {
        let mut r = "\u{274C} Error al guardar el apodo: ".to_owned();
        r.append(e);
        r
    }

    fn lbl_parents(&self) -> (r: &'static str) {
        "Padres"
    }

    fn lbl_workers(&self) -> (r: &'static str) {
        "Trabajadores"
    }

    fn btn_new_worker(&self) -> (r: &'static str) {
        "\u{2795} Nuevo"
    }

    fn network_no_key(&self) -> (r: &'static str) {
        "\u{26A0}\u{FE0F} Cargue una clave primero (pestaña Ajustes)."
    }

    fn network_add_worker_success(&self, key: &str) -> (r: String) {
        let mut r = "\u{2705} Trabajador añadido: ".to_owned();
        r.append(key);
        r
    }

    fn network_add_worker_error(&self, e: &str) -> (r: String) {
        let mut r = "\u{274C} Error al añadir trabajador: ".to_owned();
        r.append(e);
        r
    }

    fn btn_burn(&self) -> (r: &'static str) {
        "\u{1F525} Quemar"
    }

    fn btn_mint(&self) -> (r: &'static str) {
        "\u{1FA99} Acuñar"
    }

    fn btn_ok(&self) -> (r: &'static str) {
        "OK"
    }

    fn cyf_not_implemented(&self, fn_name: &str) -> (r: String) {
        let mut r = "La función ".to_owned();
        r.append(fn_name);
        r.append(" aún no está implementada.");
        r
    }

    fn lbl_gun_address(&self) -> (r: &'static str) {
        "Dirección del nodo GUN"
    }

    fn lbl_gun_relay_url(&self) -> (r: &'static str) {
        "URL del relé GUN"
    }

    fn lbl_gun_relay_ph(&self) -> (r: &'static str) {
        "https://your-server.com/gun"
    }

    fn btn_save_gun_relay(&self) -> (r: &'static str) {
        "Guardar"
    }

    fn sss_modal_title(&self) -> (r: &'static str) {
        "\u{1F512} Partes de recuperación"
    }

    fn sss_modal_description(&self) -> (r: &'static str) {
        "Distribuye estas partes a tus nodos de confianza. 3 de 7 son suficientes para reconstruir tu secreto."
    }

    fn sss_share_label(&self, n: usize) -> (r: String) {
        let mut r = "Parte ".to_owned();
        r.append(decimal_usize(n).as_str());
        r
    }

    fn btn_copy_share(&self) -> (r: &'static str) {
        "\u{1F4CB} Copiar"
    }

    fn sss_share_copied(&self) -> (r: &'static str) {
        "\u{2705} ¡Copiado!"
    }

    fn tab_zsozso(&self) -> (r: &'static str) {
        "ZS"
    }

    fn lbl_xlm_balance(&self) -> (r: &'static str) {
        "XLM"
    }

    fn lbl_zsozso_balance(&self) -> (r: &'static str) {
        "ZSOZSO"
    }

    fn lbl_locked_zsozso(&self) -> (r: &'static str) {
        "ZSOZSO bloqueado"
    }

    fn btn_lock(&self) -> (r: &'static str) {
        "\u{1F512} Bloquear"
    }

    fn btn_unlock(&self) -> (r: &'static str) {
        "\u{1F513} Desbloquear"
    }

    fn btn_refresh_balances(&self) -> (r: &'static str) {
        "\u{1F504} Actualizar"
    }

    fn zs_fetching_balances(&self) -> (r: &'static str) {
        "\u{1F504} Obteniendo saldos..."
    }

    fn zs_mainnet_only(&self) -> (r: &'static str) {
        "ZSOZSO solo está disponible en Mainnet. Cambie a Mainnet en Ajustes."
    }

    fn zs_no_key(&self) -> (r: &'static str) {
        "Cargue una clave primero en Ajustes."
    }

    fn zs_locking(&self) -> (r: &'static str) {
        "\u{1F512} Bloqueando ZSOZSO..."
    }

    fn zs_unlocking(&self) -> (r: &'static str) {
        "\u{1F513} Desbloqueando ZSOZSO..."
    }

    fn fmt_zs_lock_success(&self, amount: &str) -> (r: String) {
        let mut r = "\u{2705} ".to_owned();
        r.append(amount);
        r.append(" ZSOZSO bloqueado");
        r
    }

    fn fmt_zs_unlock_success(&self, amount: &str) -> (r: String) {
        let mut r = "\u{2705} ".to_owned();
        r.append(amount);
        r.append(" ZSOZSO desbloqueado");
        r
    }

    fn fmt_zs_lock_error(&self, err: &str) -> (r: String) {
        let mut r = "\u{274C} Bloqueo fallido: ".to_owned();
        r.append(err);
        r
    }

    fn fmt_zs_unlock_error(&self, err: &str) -> (r: String) {
        let mut r = "\u{274C} Desbloqueo fallido: ".to_owned();
        r.append(err);
        r
    }

    fn zs_invalid_amount(&self) -> (r: &'static str) {
        "Por favor, ingrese un monto válido."
    }

    fn lbl_amount(&self) -> (r: &'static str) {
        "Monto"
    }

    fn lbl_mainnet_account(&self) -> (r: &'static str) {
        "Cuenta Mainnet"
    }

    fn lbl_testnet_account(&self) -> (r: &'static str) {
        "Cuenta Testnet"
    }

    fn lbl_no_account(&self) -> (r: &'static str) {
        "Sin cuenta"
    }

    fn tab_home(&self) -> (r: &'static str) {
        "CYF"
    }

    fn lbl_mainnet_keys(&self) -> (r: &'static str) {
        "Mainnet Account"
    }

    fn lbl_testnet_keys(&self) -> (r: &'static str) {
        "Testnet Account"
    }

    fn lbl_pin_code(&self) -> (r: &'static str) {
        "PIN Code"
    }

    fn lbl_pin_code_desc(&self) -> (r: &'static str) {
        "Set a PIN code to protect your wallet (localhost only)"
    }

    fn lbl_pin_code_ph(&self) -> (r: &'static str) {
        "Enter PIN..."
    }

    fn btn_set_pin(&self) -> (r: &'static str) {
        "Set PIN"
    }

}

} // verus!
