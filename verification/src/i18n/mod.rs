//! The user-interface text in each language.
//!
//! Every text the interface shows is a method of [`UiI18n`]. Its contract ties the
//! result to the language of the implementation through the tables below:
//! `ui_str` for fixed labels and `ui_fmt` for the texts that embed a value.

use vstd::prelude::*;
use crate::language::Language;
use crate::text::{decimal_nat, decimal_int};

mod english;
mod french;
mod german;
mod hungarian;
mod spanish;

pub use english::EnglishUi;
pub use french::FrenchUi;
pub use german::GermanUi;
pub use hungarian::HungarianUi;
pub use spanish::SpanishUi;

verus! {

/// The fixed (argument-free) texts of the interface.
pub enum UiStr {
    NoKeyLoaded,
    CopyLabel,
    CopyXdrLabel,
    Waiting,
    ErrNoGeneratedXdr,
    Submitting,
    CallingFaucet,
    NoLoadedKey,
    FetchingSequence,
    ClipboardCleared,
    SaveSuccess,
    NothingToSave,
    LoadingStarted,
    UiUpdatedWithKey,
    BtnNewKey,
    BtnImport,
    BtnHideSecret,
    BtnRevealSecret,
    BtnActivateFaucet,
    BtnSaveToOs,
    BtnLoad,
    BtnGenerateXdr,
    BtnSubmitTx,
    LblActiveAddress,
    LblSignedXdr,
    LblImportPh,
    NetTestnetLabel,
    NetMainnetLabel,
    Copied,
    ClipboardModalText,
    BtnClearClipboard,
    TabCyf,
    TabNetworking,
    TabInfo,
    TabSettings,
    GateTitle,
    BtnNext,
    Authenticating,
    AuthFailed,
    BtnExit,
    NoPrfKey,
    InfoPublicKeyLabel,
    InfoNoKey,
    BtnPing,
    PingCalling,
    PingNoKey,
    BtnScanQr,
    ScanScanning,
    TabLog,
    LogRefresh,
    LogClear,
    LogSave,
    LogSaving,
    LogSaveOk,
    LogSaveEmpty,
    BtnDumpGunDb,
    LogDumping,
    LogDumpOk,
    ToastUpdateAvailable,
    BtnUpdateNow,
    NetworkSwitchSavePrompt,
    BtnSaveAndSwitch,
    BtnSwitchAndSave,
    BtnSwitchWithoutSaving,
    BtnCancel,
    BtnGenerateDbSecret,
    SeaModalTitle,
    SeaModalPlaceholder,
    BtnGenerateDbKeys,
    SeaGenerating,
    SeaKeysGenerated,
    BtnClose,
    LblBiometric,
    LblBiometricDesc,
    BiometricRequiredToSave,
    LblNickname,
    LblNicknamePh,
    BtnSaveNickname,
    NicknameSaved,
    LblParents,
    LblWorkers,
    BtnNewWorker,
    NetworkNoKey,
    BtnBurn,
    BtnMint,
    BtnOk,
    LblGunAddress,
    LblGunRelayUrl,
    LblGunRelayPh,
    BtnSaveGunRelay,
    SssModalTitle,
    SssModalDescription,
    BtnCopyShare,
    SssShareCopied,
    TabZsozso,
    LblXlmBalance,
    LblZsozsoBalance,
    LblLockedZsozso,
    BtnLock,
    BtnUnlock,
    BtnRefreshBalances,
    ZsFetchingBalances,
    ZsMainnetOnly,
    ZsNoKey,
    ZsLocking,
    ZsUnlocking,
    ZsInvalidAmount,
    LblAmount,
    LblMainnetAccount,
    LblTestnetAccount,
    LblNoAccount,
    TabHome,
    LblMainnetKeys,
    LblTestnetKeys,
    LblPinCode,
    LblPinCodeDesc,
    LblPinCodePh,
    BtnSetPin,
}

/// The texts that embed one value between a fixed prefix and suffix.
pub enum UiFmt {
    KeyLoadedLen,
    FmtSuccess,
    FmtError,
    PingSuccess,
    PingError,
    ScanSuccess,
    ScanError,
    LogSaveFail,
    InfoVersion,
    SeaGenerationError,
    NicknameSaveError,
    NetworkAddWorkerSuccess,
    NetworkAddWorkerError,
    CyfNotImplemented,
    SssShareLabel,
    FmtZsLockSuccess,
    FmtZsUnlockSuccess,
    FmtZsLockError,
    FmtZsUnlockError,
}

/// The English table of fixed texts.
pub open spec fn english_str(k: UiStr) -> Seq<char> {
    match k {
        UiStr::NoKeyLoaded => "No key loaded"@,
        UiStr::CopyLabel => "Copy"@,
        UiStr::CopyXdrLabel => "Copy XDR"@,
        UiStr::Waiting => "Waiting..."@,
        UiStr::ErrNoGeneratedXdr => "Error: No generated XDR!"@,
        UiStr::Submitting => "Submitting..."@,
        UiStr::CallingFaucet => "🚀 Calling faucet..."@,
        UiStr::NoLoadedKey => "⚠️ No loaded key!"@,
        UiStr::FetchingSequence => "🔍 Fetching sequence number..."@,
        UiStr::ClipboardCleared => "🔐 Clipboard cleared for security."@,
        UiStr::SaveSuccess => "✅ Successfully saved to system wallet!"@,
        UiStr::NothingToSave => "⚠️ Nothing to save (key is empty)!"@,
        UiStr::LoadingStarted => "🔍 Loading started..."@,
        UiStr::UiUpdatedWithKey => "✨ UI successfully updated with loaded key."@,
        UiStr::BtnNewKey => "✨ New Key"@,
        UiStr::BtnImport => "📥 Import"@,
        UiStr::BtnHideSecret => "🙈 Hide"@,
        UiStr::BtnRevealSecret => "👁 Reveal"@,
        UiStr::BtnActivateFaucet => "🚀 Activate (Faucet)"@,
        UiStr::BtnSaveToOs => "💾 Save to OS Wallet"@,
        UiStr::BtnLoad => "🔓 Load"@,
        UiStr::BtnGenerateXdr => "🛠 Generate Transaction XDR"@,
        UiStr::BtnSubmitTx => "🚀 SUBMIT Transaction"@,
        UiStr::LblActiveAddress => "Active Address (Public Key):"@,
        UiStr::LblSignedXdr => "SIGNED XDR:"@,
        UiStr::LblImportPh => "Import (S...)"@,
        UiStr::NetTestnetLabel => "🧪 Testnet ⚠️"@,
        UiStr::NetMainnetLabel => "Mainnet"@,
        UiStr::Copied => "COPIED!"@,
        UiStr::ClipboardModalText => "The content has been copied to the clipboard. When you close this dialog, the clipboard will be cleared for security."@,
        UiStr::BtnClearClipboard => "🗑️ Clear clipboard content"@,
        UiStr::TabCyf => "CYF"@,
        UiStr::TabNetworking => "Network"@,
        UiStr::TabInfo => "Info"@,
        UiStr::TabSettings => "Settings"@,
        UiStr::GateTitle => "Welcome to Zsozso"@,
        UiStr::BtnNext => "Next"@,
        UiStr::Authenticating => "Authenticating..."@,
        UiStr::AuthFailed => "Authentication failed"@,
        UiStr::BtnExit => "Exit now"@,
        UiStr::NoPrfKey => "No passkey encryption key available. Re-authenticate first."@,
        UiStr::InfoPublicKeyLabel => "Your Public Key"@,
        UiStr::InfoNoKey => "No key loaded. Generate or import one in Settings."@,
        UiStr::BtnPing => "\u{1F3D3} Ping"@,
        UiStr::PingCalling => "\u{1F4E1} Calling contract..."@,
        UiStr::PingNoKey => "\u{26A0}\u{FE0F} Load a key first (Settings tab)."@,
        UiStr::BtnScanQr => "\u{1F4F7} Scan QR"@,
        UiStr::ScanScanning => "\u{1F4F7} Scanning..."@,
        UiStr::TabLog => "Log"@,
        UiStr::LogRefresh => "\u{1F504} Refresh"@,
        UiStr::LogClear => "\u{1F5D1} Clear"@,
        UiStr::LogSave => "\u{1F4BE} Save"@,
        UiStr::LogSaving => "Saving..."@,
        UiStr::LogSaveOk => "\u{2705} Log saved"@,
        UiStr::LogSaveEmpty => "\u{26A0}\u{FE0F} Log is empty"@,
        UiStr::BtnDumpGunDb => "\u{1F4E6} Dump GUN DB"@,
        UiStr::LogDumping => "Dumping GUN DB..."@,
        UiStr::LogDumpOk => "\u{2705} GUN DB dump saved"@,
        UiStr::ToastUpdateAvailable => "\u{1F680} A new version of Zsozso is available!"@,
        UiStr::BtnUpdateNow => "Update Now"@,
        UiStr::NetworkSwitchSavePrompt => "You have a secret key loaded. Would you like to save it before switching networks?"@,
        UiStr::BtnSaveAndSwitch => "\u{1F4BE} Save & Switch"@,
        UiStr::BtnSwitchAndSave => "\u{1F504} Switch & Save"@,
        UiStr::BtnSwitchWithoutSaving => "Switch without saving"@,
        UiStr::BtnCancel => "Cancel"@,
        UiStr::BtnGenerateDbSecret => "\u{1F511} Generate DB Secret"@,
        UiStr::SeaModalTitle => "Generate GunDB SEA Keys"@,
        UiStr::SeaModalPlaceholder => "Enter secret passphrase..."@,
        UiStr::BtnGenerateDbKeys => "\u{1F511} Generate DB Keys"@,
        UiStr::SeaGenerating => "\u{1F504} Generating keys..."@,
        UiStr::SeaKeysGenerated => "\u{2705} SEA keys generated and loaded into memory."@,
        UiStr::BtnClose => "Close"@,
        UiStr::LblBiometric => "Biometric Identification"@,
        UiStr::LblBiometricDesc => "Use biometric authentication to protect your wallet"@,
        UiStr::BiometricRequiredToSave => "Please enable Biometric Identification in Settings before saving your secret."@,
        UiStr::LblNickname => "Nickname"@,
        UiStr::LblNicknamePh => "Enter your nickname..."@,
        UiStr::BtnSaveNickname => "\u{1F4BE} Save"@,
        UiStr::NicknameSaved => "\u{2705} Nickname saved!"@,
        UiStr::LblParents => "Parents"@,
        UiStr::LblWorkers => "Workers"@,
        UiStr::BtnNewWorker => "\u{2795} New"@,
        UiStr::NetworkNoKey => "\u{26A0}\u{FE0F} Load a key first (Settings tab)."@,
        UiStr::BtnBurn => "\u{1F525} Burn"@,
        UiStr::BtnMint => "\u{1FA99} Mint"@,
        UiStr::BtnOk => "OK"@,
        UiStr::LblGunAddress => "GUN Node Address"@,
        UiStr::LblGunRelayUrl => "GUN Relay URL"@,
        UiStr::LblGunRelayPh => "https://your-server.com/gun"@,
        UiStr::BtnSaveGunRelay => "Save"@,
        UiStr::SssModalTitle => "\u{1F512} Recovery Shares"@,
        UiStr::SssModalDescription => "Distribute these shares to your trusted nodes. Any 3 of 7 can reconstruct your brain-secret."@,
        UiStr::BtnCopyShare => "\u{1F4CB} Copy"@,
        UiStr::SssShareCopied => "\u{2705} Copied!"@,
        UiStr::TabZsozso => "ZS"@,
        UiStr::LblXlmBalance => "XLM"@,
        UiStr::LblZsozsoBalance => "ZSOZSO"@,
        UiStr::LblLockedZsozso => "Locked ZSOZSO"@,
        UiStr::BtnLock => "\u{1F512} Lock"@,
        UiStr::BtnUnlock => "\u{1F513} Unlock"@,
        UiStr::BtnRefreshBalances => "\u{1F504} Refresh"@,
        UiStr::ZsFetchingBalances => "\u{1F504} Fetching balances..."@,
        UiStr::ZsMainnetOnly => "ZSOZSO is only available on Mainnet. Switch to Mainnet in Settings."@,
        UiStr::ZsNoKey => "Load a key first in Settings."@,
        UiStr::ZsLocking => "\u{1F512} Locking ZSOZSO..."@,
        UiStr::ZsUnlocking => "\u{1F513} Unlocking ZSOZSO..."@,
        UiStr::ZsInvalidAmount => "Please enter a valid amount."@,
        UiStr::LblAmount => "Amount"@,
        UiStr::LblMainnetAccount => "Mainnet Account"@,
        UiStr::LblTestnetAccount => "Testnet Account"@,
        UiStr::LblNoAccount => "No account"@,
        UiStr::TabHome => "CYF"@,
        UiStr::LblMainnetKeys => "Mainnet Account"@,
        UiStr::LblTestnetKeys => "Testnet Account"@,
        UiStr::LblPinCode => "PIN Code"@,
        UiStr::LblPinCodeDesc => "Set a PIN code to protect your wallet (localhost only)"@,
        UiStr::LblPinCodePh => "Enter PIN..."@,
        UiStr::BtnSetPin => "Set PIN"@,
    }
}

/// The French table of fixed texts.
pub open spec fn french_str(k: UiStr) -> Seq<char> {
    match k {
        UiStr::NoKeyLoaded => "Aucune clé chargée"@,
        UiStr::CopyLabel => "Copier"@,
        UiStr::CopyXdrLabel => "Copier XDR"@,
        UiStr::Waiting => "En attente..."@,
        UiStr::ErrNoGeneratedXdr => "Erreur : Aucun XDR généré !"@,
        UiStr::Submitting => "Envoi en cours..."@,
        UiStr::CallingFaucet => "🚀 Appel du faucet..."@,
        UiStr::NoLoadedKey => "⚠️ Aucune clé chargée !"@,
        UiStr::FetchingSequence => "🔍 Récupération du numéro de séquence..."@,
        UiStr::ClipboardCleared => "🔐 Presse-papiers vidé par mesure de sécurité."@,
        UiStr::SaveSuccess => "✅ Sauvegarde réussie dans le portefeuille système !"@,
        UiStr::NothingToSave => "⚠️ Rien à sauvegarder (la clé est vide) !"@,
        UiStr::LoadingStarted => "🔍 Chargement en cours..."@,
        UiStr::UiUpdatedWithKey => "✨ Interface mise à jour avec la clé chargée."@,
        UiStr::BtnNewKey => "✨ Nouvelle Clé"@,
        UiStr::BtnImport => "📥 Importer"@,
        UiStr::BtnHideSecret => "🙈 Masquer"@,
        UiStr::BtnRevealSecret => "👁 Révéler"@,
        UiStr::BtnActivateFaucet => "🚀 Activer (Faucet)"@,
        UiStr::BtnSaveToOs => "💾 Sauvegarder dans le portefeuille OS"@,
        UiStr::BtnLoad => "🔓 Charger"@,
        UiStr::BtnGenerateXdr => "🛠 Générer le XDR de transaction"@,
        UiStr::BtnSubmitTx => "🚀 ENVOYER la Transaction"@,
        UiStr::LblActiveAddress => "Adresse Active (Clé Publique) :"@,
        UiStr::LblSignedXdr => "XDR SIGNÉ :"@,
        UiStr::LblImportPh => "Importer (S...)"@,
        UiStr::NetTestnetLabel => "🧪 Testnet ⚠️"@,
        UiStr::NetMainnetLabel => "Mainnet"@,
        UiStr::Copied => "COPIÉ !"@,
        UiStr::ClipboardModalText => "Le contenu a été copié dans le presse-papiers. Lorsque vous fermerez cette fenêtre, le presse-papiers sera vidé par mesure de sécurité."@,
        UiStr::BtnClearClipboard => "🗑️ Vider le presse-papiers"@,
        UiStr::TabCyf => english_str(UiStr::TabCyf),
        UiStr::TabNetworking => "Réseau"@,
        UiStr::TabInfo => "Info"@,
        UiStr::TabSettings => "Paramètres"@,
        UiStr::GateTitle => "Bienvenue sur Zsozso"@,
        UiStr::BtnNext => "Suivant"@,
        UiStr::Authenticating => "Authentification..."@,
        UiStr::AuthFailed => "Échec de l'authentification"@,
        UiStr::BtnExit => "Quitter"@,
        UiStr::NoPrfKey => "Aucune clé de chiffrement passkey disponible. Réauthentifiez-vous d'abord."@,
        UiStr::InfoPublicKeyLabel => "Votre Clé Publique"@,
        UiStr::InfoNoKey => "Aucune clé chargée. Générez ou importez-en une dans les Paramètres."@,
        UiStr::BtnPing => "\u{1F3D3} Ping"@,
        UiStr::PingCalling => "\u{1F4E1} Appel du contrat..."@,
        UiStr::PingNoKey => "\u{26A0}\u{FE0F} Chargez d'abord une clé (onglet Paramètres)."@,
        UiStr::BtnScanQr => "\u{1F4F7} Scanner QR"@,
        UiStr::ScanScanning => "\u{1F4F7} Scan en cours..."@,
        UiStr::TabLog => "Journal"@,
        UiStr::LogRefresh => "\u{1F504} Rafraîchir"@,
        UiStr::LogClear => "\u{1F5D1} Effacer"@,
        UiStr::LogSave => english_str(UiStr::LogSave),
        UiStr::LogSaving => english_str(UiStr::LogSaving),
        UiStr::LogSaveOk => english_str(UiStr::LogSaveOk),
        UiStr::LogSaveEmpty => english_str(UiStr::LogSaveEmpty),
        UiStr::BtnDumpGunDb => english_str(UiStr::BtnDumpGunDb),
        UiStr::LogDumping => english_str(UiStr::LogDumping),
        UiStr::LogDumpOk => english_str(UiStr::LogDumpOk),
        UiStr::ToastUpdateAvailable => "\u{1F680} Une nouvelle version de Zsozso est disponible\u{00A0}!"@,
        UiStr::BtnUpdateNow => "Mettre à jour"@,
        UiStr::NetworkSwitchSavePrompt => english_str(UiStr::NetworkSwitchSavePrompt),
        UiStr::BtnSaveAndSwitch => english_str(UiStr::BtnSaveAndSwitch),
        UiStr::BtnSwitchAndSave => english_str(UiStr::BtnSwitchAndSave),
        UiStr::BtnSwitchWithoutSaving => english_str(UiStr::BtnSwitchWithoutSaving),
        UiStr::BtnCancel => english_str(UiStr::BtnCancel),
        UiStr::BtnGenerateDbSecret => english_str(UiStr::BtnGenerateDbSecret),
        UiStr::SeaModalTitle => english_str(UiStr::SeaModalTitle),
        UiStr::SeaModalPlaceholder => english_str(UiStr::SeaModalPlaceholder),
        UiStr::BtnGenerateDbKeys => english_str(UiStr::BtnGenerateDbKeys),
        UiStr::SeaGenerating => english_str(UiStr::SeaGenerating),
        UiStr::SeaKeysGenerated => english_str(UiStr::SeaKeysGenerated),
        UiStr::BtnClose => english_str(UiStr::BtnClose),
        UiStr::LblBiometric => english_str(UiStr::LblBiometric),
        UiStr::LblBiometricDesc => english_str(UiStr::LblBiometricDesc),
        UiStr::BiometricRequiredToSave => english_str(UiStr::BiometricRequiredToSave),
        UiStr::LblNickname => english_str(UiStr::LblNickname),
        UiStr::LblNicknamePh => english_str(UiStr::LblNicknamePh),
        UiStr::BtnSaveNickname => english_str(UiStr::BtnSaveNickname),
        UiStr::NicknameSaved => english_str(UiStr::NicknameSaved),
        UiStr::LblParents => english_str(UiStr::LblParents),
        UiStr::LblWorkers => english_str(UiStr::LblWorkers),
        UiStr::BtnNewWorker => english_str(UiStr::BtnNewWorker),
        UiStr::NetworkNoKey => english_str(UiStr::NetworkNoKey),
        UiStr::BtnBurn => english_str(UiStr::BtnBurn),
        UiStr::BtnMint => english_str(UiStr::BtnMint),
        UiStr::BtnOk => english_str(UiStr::BtnOk),
        UiStr::LblGunAddress => english_str(UiStr::LblGunAddress),
        UiStr::LblGunRelayUrl => english_str(UiStr::LblGunRelayUrl),
        UiStr::LblGunRelayPh => english_str(UiStr::LblGunRelayPh),
        UiStr::BtnSaveGunRelay => english_str(UiStr::BtnSaveGunRelay),
        UiStr::SssModalTitle => english_str(UiStr::SssModalTitle),
        UiStr::SssModalDescription => english_str(UiStr::SssModalDescription),
        UiStr::BtnCopyShare => english_str(UiStr::BtnCopyShare),
        UiStr::SssShareCopied => english_str(UiStr::SssShareCopied),
        UiStr::TabZsozso => english_str(UiStr::TabZsozso),
        UiStr::LblXlmBalance => english_str(UiStr::LblXlmBalance),
        UiStr::LblZsozsoBalance => english_str(UiStr::LblZsozsoBalance),
        UiStr::LblLockedZsozso => english_str(UiStr::LblLockedZsozso),
        UiStr::BtnLock => english_str(UiStr::BtnLock),
        UiStr::BtnUnlock => english_str(UiStr::BtnUnlock),
        UiStr::BtnRefreshBalances => english_str(UiStr::BtnRefreshBalances),
        UiStr::ZsFetchingBalances => english_str(UiStr::ZsFetchingBalances),
        UiStr::ZsMainnetOnly => english_str(UiStr::ZsMainnetOnly),
        UiStr::ZsNoKey => english_str(UiStr::ZsNoKey),
        UiStr::ZsLocking => english_str(UiStr::ZsLocking),
        UiStr::ZsUnlocking => english_str(UiStr::ZsUnlocking),
        UiStr::ZsInvalidAmount => english_str(UiStr::ZsInvalidAmount),
        UiStr::LblAmount => english_str(UiStr::LblAmount),
        UiStr::LblMainnetAccount => english_str(UiStr::LblMainnetAccount),
        UiStr::LblTestnetAccount => english_str(UiStr::LblTestnetAccount),
        UiStr::LblNoAccount => english_str(UiStr::LblNoAccount),
        UiStr::TabHome => "Accueil"@,
        UiStr::LblMainnetKeys => english_str(UiStr::LblMainnetKeys),
        UiStr::LblTestnetKeys => english_str(UiStr::LblTestnetKeys),
        UiStr::LblPinCode => english_str(UiStr::LblPinCode),
        UiStr::LblPinCodeDesc => english_str(UiStr::LblPinCodeDesc),
        UiStr::LblPinCodePh => english_str(UiStr::LblPinCodePh),
        UiStr::BtnSetPin => english_str(UiStr::BtnSetPin),
    }
}

/// The German table of fixed texts.
pub open spec fn german_str(k: UiStr) -> Seq<char> {
    match k {
        UiStr::NoKeyLoaded => "Kein Schlüssel geladen"@,
        UiStr::CopyLabel => "Kopieren"@,
        UiStr::CopyXdrLabel => "XDR kopieren"@,
        UiStr::Waiting => "Warten..."@,
        UiStr::ErrNoGeneratedXdr => "Fehler: Kein generiertes XDR!"@,
        UiStr::Submitting => "Wird gesendet..."@,
        UiStr::CallingFaucet => "🚀 Faucet wird aufgerufen..."@,
        UiStr::NoLoadedKey => "⚠️ Kein Schlüssel geladen!"@,
        UiStr::FetchingSequence => "🔍 Sequenznummer wird abgerufen..."@,
        UiStr::ClipboardCleared => "🔐 Zwischenablage aus Sicherheitsgründen geleert."@,
        UiStr::SaveSuccess => "✅ Erfolgreich in der System-Wallet gespeichert!"@,
        UiStr::NothingToSave => "⚠️ Nichts zu speichern (Schlüssel ist leer)!"@,
        UiStr::LoadingStarted => "🔍 Laden gestartet..."@,
        UiStr::UiUpdatedWithKey => "✨ Oberfläche erfolgreich mit geladenem Schlüssel aktualisiert."@,
        UiStr::BtnNewKey => "✨ Neuer Schlüssel"@,
        UiStr::BtnImport => "📥 Importieren"@,
        UiStr::BtnHideSecret => "🙈 Verbergen"@,
        UiStr::BtnRevealSecret => "👁 Anzeigen"@,
        UiStr::BtnActivateFaucet => "🚀 Aktivieren (Faucet)"@,
        UiStr::BtnSaveToOs => "💾 In OS-Wallet speichern"@,
        UiStr::BtnLoad => "🔓 Laden"@,
        UiStr::BtnGenerateXdr => "🛠 Transaktions-XDR generieren"@,
        UiStr::BtnSubmitTx => "🚀 Transaktion SENDEN"@,
        UiStr::LblActiveAddress => "Aktive Adresse (Öffentlicher Schlüssel):"@,
        UiStr::LblSignedXdr => "SIGNIERTES XDR:"@,
        UiStr::LblImportPh => "Importieren (S...)"@,
        UiStr::NetTestnetLabel => "🧪 Testnet ⚠️"@,
        UiStr::NetMainnetLabel => "Mainnet"@,
        UiStr::Copied => "KOPIERT!"@,
        UiStr::ClipboardModalText => "Der Inhalt wurde in die Zwischenablage kopiert. Beim Schließen dieses Fensters wird die Zwischenablage aus Sicherheitsgründen geleert."@,
        UiStr::BtnClearClipboard => "🗑️ Zwischenablage leeren"@,
        UiStr::TabCyf => english_str(UiStr::TabCyf),
        UiStr::TabNetworking => "Netzwerk"@,
        UiStr::TabInfo => "Info"@,
        UiStr::TabSettings => "Einstellungen"@,
        UiStr::GateTitle => "Willkommen bei Zsozso"@,
        UiStr::BtnNext => "Weiter"@,
        UiStr::Authenticating => "Authentifizierung..."@,
        UiStr::AuthFailed => "Authentifizierung fehlgeschlagen"@,
        UiStr::BtnExit => "Beenden"@,
        UiStr::NoPrfKey => "Kein Passkey-Verschlüsselungsschlüssel verfügbar. Bitte zuerst erneut authentifizieren."@,
        UiStr::InfoPublicKeyLabel => "Ihr öffentlicher Schlüssel"@,
        UiStr::InfoNoKey => "Kein Schlüssel geladen. Generieren oder importieren Sie einen unter Einstellungen."@,
        UiStr::BtnPing => "\u{1F3D3} Ping"@,
        UiStr::PingCalling => "\u{1F4E1} Vertrag wird aufgerufen..."@,
        UiStr::PingNoKey => "\u{26A0}\u{FE0F} Laden Sie zuerst einen Schlüssel (Tab Einstellungen)."@,
        UiStr::BtnScanQr => "\u{1F4F7} QR scannen"@,
        UiStr::ScanScanning => "\u{1F4F7} Wird gescannt..."@,
        UiStr::TabLog => "Protokoll"@,
        UiStr::LogRefresh => "\u{1F504} Aktualisieren"@,
        UiStr::LogClear => "\u{1F5D1} Löschen"@,
        UiStr::LogSave => english_str(UiStr::LogSave),
        UiStr::LogSaving => english_str(UiStr::LogSaving),
        UiStr::LogSaveOk => english_str(UiStr::LogSaveOk),
        UiStr::LogSaveEmpty => english_str(UiStr::LogSaveEmpty),
        UiStr::BtnDumpGunDb => english_str(UiStr::BtnDumpGunDb),
        UiStr::LogDumping => english_str(UiStr::LogDumping),
        UiStr::LogDumpOk => english_str(UiStr::LogDumpOk),
        UiStr::ToastUpdateAvailable => "\u{1F680} Eine neue Version von Zsozso ist verfügbar!"@,
        UiStr::BtnUpdateNow => "Jetzt aktualisieren"@,
        UiStr::NetworkSwitchSavePrompt => english_str(UiStr::NetworkSwitchSavePrompt),
        UiStr::BtnSaveAndSwitch => english_str(UiStr::BtnSaveAndSwitch),
        UiStr::BtnSwitchAndSave => english_str(UiStr::BtnSwitchAndSave),
        UiStr::BtnSwitchWithoutSaving => english_str(UiStr::BtnSwitchWithoutSaving),
        UiStr::BtnCancel => english_str(UiStr::BtnCancel),
        UiStr::BtnGenerateDbSecret => english_str(UiStr::BtnGenerateDbSecret),
        UiStr::SeaModalTitle => english_str(UiStr::SeaModalTitle),
        UiStr::SeaModalPlaceholder => english_str(UiStr::SeaModalPlaceholder),
        UiStr::BtnGenerateDbKeys => english_str(UiStr::BtnGenerateDbKeys),
        UiStr::SeaGenerating => english_str(UiStr::SeaGenerating),
        UiStr::SeaKeysGenerated => english_str(UiStr::SeaKeysGenerated),
        UiStr::BtnClose => english_str(UiStr::BtnClose),
        UiStr::LblBiometric => english_str(UiStr::LblBiometric),
        UiStr::LblBiometricDesc => english_str(UiStr::LblBiometricDesc),
        UiStr::BiometricRequiredToSave => english_str(UiStr::BiometricRequiredToSave),
        UiStr::LblNickname => english_str(UiStr::LblNickname),
        UiStr::LblNicknamePh => english_str(UiStr::LblNicknamePh),
        UiStr::BtnSaveNickname => english_str(UiStr::BtnSaveNickname),
        UiStr::NicknameSaved => english_str(UiStr::NicknameSaved),
        UiStr::LblParents => english_str(UiStr::LblParents),
        UiStr::LblWorkers => english_str(UiStr::LblWorkers),
        UiStr::BtnNewWorker => english_str(UiStr::BtnNewWorker),
        UiStr::NetworkNoKey => english_str(UiStr::NetworkNoKey),
        UiStr::BtnBurn => english_str(UiStr::BtnBurn),
        UiStr::BtnMint => english_str(UiStr::BtnMint),
        UiStr::BtnOk => english_str(UiStr::BtnOk),
        UiStr::LblGunAddress => english_str(UiStr::LblGunAddress),
        UiStr::LblGunRelayUrl => english_str(UiStr::LblGunRelayUrl),
        UiStr::LblGunRelayPh => english_str(UiStr::LblGunRelayPh),
        UiStr::BtnSaveGunRelay => english_str(UiStr::BtnSaveGunRelay),
        UiStr::SssModalTitle => english_str(UiStr::SssModalTitle),
        UiStr::SssModalDescription => english_str(UiStr::SssModalDescription),
        UiStr::BtnCopyShare => english_str(UiStr::BtnCopyShare),
        UiStr::SssShareCopied => english_str(UiStr::SssShareCopied),
        UiStr::TabZsozso => english_str(UiStr::TabZsozso),
        UiStr::LblXlmBalance => english_str(UiStr::LblXlmBalance),
        UiStr::LblZsozsoBalance => english_str(UiStr::LblZsozsoBalance),
        UiStr::LblLockedZsozso => english_str(UiStr::LblLockedZsozso),
        UiStr::BtnLock => english_str(UiStr::BtnLock),
        UiStr::BtnUnlock => english_str(UiStr::BtnUnlock),
        UiStr::BtnRefreshBalances => english_str(UiStr::BtnRefreshBalances),
        UiStr::ZsFetchingBalances => english_str(UiStr::ZsFetchingBalances),
        UiStr::ZsMainnetOnly => english_str(UiStr::ZsMainnetOnly),
        UiStr::ZsNoKey => english_str(UiStr::ZsNoKey),
        UiStr::ZsLocking => english_str(UiStr::ZsLocking),
        UiStr::ZsUnlocking => english_str(UiStr::ZsUnlocking),
        UiStr::ZsInvalidAmount => english_str(UiStr::ZsInvalidAmount),
        UiStr::LblAmount => english_str(UiStr::LblAmount),
        UiStr::LblMainnetAccount => english_str(UiStr::LblMainnetAccount),
        UiStr::LblTestnetAccount => english_str(UiStr::LblTestnetAccount),
        UiStr::LblNoAccount => english_str(UiStr::LblNoAccount),
        UiStr::TabHome => "Startseite"@,
        UiStr::LblMainnetKeys => english_str(UiStr::LblMainnetKeys),
        UiStr::LblTestnetKeys => english_str(UiStr::LblTestnetKeys),
        UiStr::LblPinCode => english_str(UiStr::LblPinCode),
        UiStr::LblPinCodeDesc => english_str(UiStr::LblPinCodeDesc),
        UiStr::LblPinCodePh => english_str(UiStr::LblPinCodePh),
        UiStr::BtnSetPin => english_str(UiStr::BtnSetPin),
    }
}

/// The Hungarian table of fixed texts.
pub open spec fn hungarian_str(k: UiStr) -> Seq<char> {
    match k {
        UiStr::NoKeyLoaded => "Nincs kulcs betöltve"@,
        UiStr::CopyLabel => "Másolás"@,
        UiStr::CopyXdrLabel => "XDR Másolása"@,
        UiStr::Waiting => "Várakozás..."@,
        UiStr::ErrNoGeneratedXdr => "Hiba: Nincs generált XDR!"@,
        UiStr::Submitting => "Beküldés folyamatban..."@,
        UiStr::CallingFaucet => "🚀 Faucet hívása..."@,
        UiStr::NoLoadedKey => "⚠️ Nincs betöltött kulcs!"@,
        UiStr::FetchingSequence => "🔍 Szekvenciaszám lekérése..."@,
        UiStr::ClipboardCleared => "🔐 Vágólap törölve a biztonság érdekében."@,
        UiStr::SaveSuccess => "✅ Sikeres mentés a rendszer-tárcába!"@,
        UiStr::NothingToSave => "⚠️ Nincs mit menteni (üres a kulcs)!"@,
        UiStr::LoadingStarted => "🔍 Betöltés megkezdése..."@,
        UiStr::UiUpdatedWithKey => "✨ UI sikeresen frissítve a betöltött kulccsal."@,
        UiStr::BtnNewKey => "✨ Új Kulcs"@,
        UiStr::BtnImport => "📥 Import"@,
        UiStr::BtnHideSecret => "🙈 Elrejtés"@,
        UiStr::BtnRevealSecret => "👁 Felfedés"@,
        UiStr::BtnActivateFaucet => "🚀 Aktiválás (Faucet)"@,
        UiStr::BtnSaveToOs => "💾 Mentés az OS tárcába"@,
        UiStr::BtnLoad => "🔓 Betöltés"@,
        UiStr::BtnGenerateXdr => "🛠 Tranzakció XDR Generálása"@,
        UiStr::BtnSubmitTx => "🚀 Tranzakció BEKÜLDÉSE"@,
        UiStr::LblActiveAddress => "Aktív Cím (Public Key):"@,
        UiStr::LblSignedXdr => "ALÁÍRT XDR:"@,
        UiStr::LblImportPh => "Importálás (S...)"@,
        UiStr::NetTestnetLabel => "🧪 Testnet ⚠️"@,
        UiStr::NetMainnetLabel => "Mainnet"@,
        UiStr::Copied => "MÁSOLVA!"@,
        UiStr::ClipboardModalText => "A tartalom a vágólapra került. Amikor bezárod ezt az ablakot, a vágólap tartalma biztonsági okokból törlődik."@,
        UiStr::BtnClearClipboard => "🗑️ Törlöm a vágólap tartalmát"@,
        UiStr::TabCyf => "CYF"@,
        UiStr::TabNetworking => "Hálózat"@,
        UiStr::TabInfo => "Infó"@,
        UiStr::TabSettings => "Beállítások"@,
        UiStr::GateTitle => "Üdvözöl a Zsozso"@,
        UiStr::BtnNext => "Tovább"@,
        UiStr::Authenticating => "Hitelesítés..."@,
        UiStr::AuthFailed => "A hitelesítés sikertelen"@,
        UiStr::BtnExit => "Kilépés"@,
        UiStr::NoPrfKey => "Nincs passkey titkosítási kulcs. Először hitelesítsd magad újra."@,
        UiStr::InfoPublicKeyLabel => "Publikus Kulcsod"@,
        UiStr::InfoNoKey => "Nincs betöltött kulcs. Generálj vagy importálj egyet a Beállításokban."@,
        UiStr::BtnPing => "\u{1F3D3} Ping"@,
        UiStr::PingCalling => "\u{1F4E1} Szerződés hívása..."@,
        UiStr::PingNoKey => "\u{26A0}\u{FE0F} Előbb tölts be egy kulcsot (Beállítások fül)."@,
        UiStr::BtnScanQr => "\u{1F4F7} QR Szkennelés"@,
        UiStr::ScanScanning => "\u{1F4F7} Szkennelés..."@,
        UiStr::TabLog => "Napló"@,
        UiStr::LogRefresh => "\u{1F504} Frissítés"@,
        UiStr::LogClear => "\u{1F5D1} Törlés"@,
        UiStr::LogSave => "\u{1F4BE} Mentés"@,
        UiStr::LogSaving => "Mentés..."@,
        UiStr::LogSaveOk => "\u{2705} Napló mentve"@,
        UiStr::LogSaveEmpty => "\u{26A0}\u{FE0F} A napló üres"@,
        UiStr::BtnDumpGunDb => "\u{1F4E6} GUN DB mentés"@,
        UiStr::LogDumping => "GUN DB mentése..."@,
        UiStr::LogDumpOk => "\u{2705} GUN DB mentve"@,
        UiStr::ToastUpdateAvailable => "\u{1F680} A Zsozso új verziója elérhető!"@,
        UiStr::BtnUpdateNow => "Frissítés most"@,
        UiStr::NetworkSwitchSavePrompt => "Van betöltött titkos kulcsod. Szeretnéd elmenteni a hálózatváltás előtt?"@,
        UiStr::BtnSaveAndSwitch => "\u{1F4BE} Mentés és váltás"@,
        UiStr::BtnSwitchAndSave => "\u{1F504} Váltás és mentés"@,
        UiStr::BtnSwitchWithoutSaving => "Váltás mentés nélkül"@,
        UiStr::BtnCancel => "Mégse"@,
        UiStr::BtnGenerateDbSecret => "\u{1F511} DB Titok Generálása"@,
        UiStr::SeaModalTitle => "GunDB SEA Kulcsok Generálása"@,
        UiStr::SeaModalPlaceholder => "Írd be a titkos jelszót..."@,
        UiStr::BtnGenerateDbKeys => "\u{1F511} DB Kulcsok Generálása"@,
        UiStr::SeaGenerating => "\u{1F504} Kulcsok generálása..."@,
        UiStr::SeaKeysGenerated => "\u{2705} SEA kulcsok generálva és betöltve a memóriába."@,
        UiStr::BtnClose => "Bezárás"@,
        UiStr::LblBiometric => "Biometrikus azonosítás"@,
        UiStr::LblBiometricDesc => "Biometrikus hitelesítés használata a tárca védelméhez"@,
        UiStr::BiometricRequiredToSave => "Kérjük, először kapcsold be a Biometrikus azonosítást a Beállításokban a titok mentése előtt."@,
        UiStr::LblNickname => "Becenév"@,
        UiStr::LblNicknamePh => "Írd be a beceneved..."@,
        UiStr::BtnSaveNickname => "\u{1F4BE} Mentés"@,
        UiStr::NicknameSaved => "\u{2705} Becenév mentve!"@,
        UiStr::LblParents => "Szülők"@,
        UiStr::LblWorkers => "Munkatársak"@,
        UiStr::BtnNewWorker => "\u{2795} Új"@,
        UiStr::NetworkNoKey => "\u{26A0}\u{FE0F} Előbb tölts be egy kulcsot (Beállítások fül)."@,
        UiStr::BtnBurn => "\u{1F525} Égetés"@,
        UiStr::BtnMint => "\u{1FA99} Kibocsátás"@,
        UiStr::BtnOk => "OK"@,
        UiStr::LblGunAddress => "GUN csomópont cím"@,
        UiStr::LblGunRelayUrl => "GUN Relay URL"@,
        UiStr::LblGunRelayPh => "https://your-server.com/gun"@,
        UiStr::BtnSaveGunRelay => "Mentés"@,
        UiStr::SssModalTitle => "\u{1F512} Visszaállítási részletek"@,
        UiStr::SssModalDescription => "Oszd el ezeket a részleteket a megbízható csomópontjaid között. Bármely 3 a 7-ből elegendő az agy-titok visszaállításához."@,
        UiStr::BtnCopyShare => "\u{1F4CB} Másolás"@,
        UiStr::SssShareCopied => "\u{2705} Másolva!"@,
        UiStr::TabZsozso => "ZS"@,
        UiStr::LblXlmBalance => "XLM"@,
        UiStr::LblZsozsoBalance => "ZSOZSO"@,
        UiStr::LblLockedZsozso => "Zárolt ZSOZSO"@,
        UiStr::BtnLock => "\u{1F512} Zárolás"@,
        UiStr::BtnUnlock => "\u{1F513} Feloldás"@,
        UiStr::BtnRefreshBalances => "\u{1F504} Frissítés"@,
        UiStr::ZsFetchingBalances => "\u{1F504} Egyenlegek lekérése..."@,
        UiStr::ZsMainnetOnly => "A ZSOZSO csak Mainnet-en elérhető. Válts Mainnet-re a Beállításokban."@,
        UiStr::ZsNoKey => "Előbb tölts be egy kulcsot a Beállításokban."@,
        UiStr::ZsLocking => "\u{1F512} ZSOZSO zárolása..."@,
        UiStr::ZsUnlocking => "\u{1F513} ZSOZSO feloldása..."@,
        UiStr::ZsInvalidAmount => "Kérlek, adj meg egy érvényes összeget."@,
        UiStr::LblAmount => "Összeg"@,
        UiStr::LblMainnetAccount => "Mainnet Fiók"@,
        UiStr::LblTestnetAccount => "Testnet Fiók"@,
        UiStr::LblNoAccount => "Nincs fiók"@,
        UiStr::TabHome => english_str(UiStr::TabHome),
        UiStr::LblMainnetKeys => "Mainnet Kulcs"@,
        UiStr::LblTestnetKeys => "Testnet Kulcs"@,
        UiStr::LblPinCode => "PIN Kód"@,
        UiStr::LblPinCodeDesc => "Állítson be PIN kódot a tárca védelméhez (csak localhost)"@,
        UiStr::LblPinCodePh => "PIN megadása..."@,
        UiStr::BtnSetPin => "PIN Beállítása"@,
    }
}

/// The Spanish table of fixed texts.
pub open spec fn spanish_str(k: UiStr) -> Seq<char> {
    match k {
        UiStr::NoKeyLoaded => "Ninguna clave cargada"@,
        UiStr::CopyLabel => "Copiar"@,
        UiStr::CopyXdrLabel => "Copiar XDR"@,
        UiStr::Waiting => "Esperando..."@,
        UiStr::ErrNoGeneratedXdr => "Error: ¡No hay XDR generado!"@,
        UiStr::Submitting => "Enviando..."@,
        UiStr::CallingFaucet => "🚀 Llamando al faucet..."@,
        UiStr::NoLoadedKey => "⚠️ ¡No hay clave cargada!"@,
        UiStr::FetchingSequence => "🔍 Obteniendo número de secuencia..."@,
        UiStr::ClipboardCleared => "🔐 Portapapeles limpiado por seguridad."@,
        UiStr::SaveSuccess => "✅ ¡Guardado exitosamente en la billetera del sistema!"@,
        UiStr::NothingToSave => "⚠️ ¡Nada que guardar (la clave está vacía)!"@,
        UiStr::LoadingStarted => "🔍 Carga iniciada..."@,
        UiStr::UiUpdatedWithKey => "✨ Interfaz actualizada con la clave cargada."@,
        UiStr::BtnNewKey => "✨ Nueva clave"@,
        UiStr::BtnImport => "📥 Importar"@,
        UiStr::BtnHideSecret => "🙈 Ocultar"@,
        UiStr::BtnRevealSecret => "👁 Revelar"@,
        UiStr::BtnActivateFaucet => "🚀 Activar (Faucet)"@,
        UiStr::BtnSaveToOs => "💾 Guardar en billetera del SO"@,
        UiStr::BtnLoad => "🔓 Cargar"@,
        UiStr::BtnGenerateXdr => "🛠 Generar transacción XDR"@,
        UiStr::BtnSubmitTx => "🚀 ENVIAR Transacción"@,
        UiStr::LblActiveAddress => "Dirección activa (clave pública):"@,
        UiStr::LblSignedXdr => "XDR FIRMADO:"@,
        UiStr::LblImportPh => "Importar (S...)"@,
        UiStr::NetTestnetLabel => "🧪 Testnet ⚠️"@,
        UiStr::NetMainnetLabel => "Mainnet"@,
        UiStr::Copied => "¡COPIADO!"@,
        UiStr::ClipboardModalText => "El contenido se ha copiado al portapapeles. Al cerrar este diálogo, el portapapeles se limpiará por seguridad."@,
        UiStr::BtnClearClipboard => "🗑️ Limpiar portapapeles"@,
        UiStr::TabCyf => "CYF"@,
        UiStr::TabNetworking => "Red"@,
        UiStr::TabInfo => "Info"@,
        UiStr::TabSettings => "Ajustes"@,
        UiStr::GateTitle => "Bienvenido a Zsozso"@,
        UiStr::BtnNext => "Siguiente"@,
        UiStr::Authenticating => "Autenticando..."@,
        UiStr::AuthFailed => "Autenticación fallida"@,
        UiStr::BtnExit => "Salir ahora"@,
        UiStr::NoPrfKey => "No hay clave de cifrado de passkey disponible. Vuelva a autenticarse."@,
        UiStr::InfoPublicKeyLabel => "Tu clave pública"@,
        UiStr::InfoNoKey => "No hay clave cargada. Genera o importa una en Ajustes."@,
        UiStr::BtnPing => "\u{1F3D3} Ping"@,
        UiStr::PingCalling => "\u{1F4E1} Llamando al contrato..."@,
        UiStr::PingNoKey => "\u{26A0}\u{FE0F} Cargue una clave primero (pestaña Ajustes)."@,
        UiStr::BtnScanQr => "\u{1F4F7} Escanear QR"@,
        UiStr::ScanScanning => "\u{1F4F7} Escaneando..."@,
        UiStr::TabLog => "Registro"@,
        UiStr::LogRefresh => "\u{1F504} Actualizar"@,
        UiStr::LogClear => "\u{1F5D1} Limpiar"@,
        UiStr::LogSave => "\u{1F4BE} Guardar"@,
        UiStr::LogSaving => "Guardando..."@,
        UiStr::LogSaveOk => "\u{2705} Registro guardado"@,
        UiStr::LogSaveEmpty => "\u{26A0}\u{FE0F} El registro está vacío"@,
        UiStr::BtnDumpGunDb => "\u{1F4E6} Exportar GUN DB"@,
        UiStr::LogDumping => "Exportando GUN DB..."@,
        UiStr::LogDumpOk => "\u{2705} GUN DB exportada"@,
        UiStr::ToastUpdateAvailable => "\u{1F680} ¡Una nueva versión de Zsozso está disponible!"@,
        UiStr::BtnUpdateNow => "Actualizar ahora"@,
        UiStr::NetworkSwitchSavePrompt => "\u{00BF}Tiene una clave secreta cargada. Desea guardarla antes de cambiar de red?"@,
        UiStr::BtnSaveAndSwitch => "\u{1F4BE} Guardar y cambiar"@,
        UiStr::BtnSwitchAndSave => "\u{1F504} Cambiar y guardar"@,
        UiStr::BtnSwitchWithoutSaving => "Cambiar sin guardar"@,
        UiStr::BtnCancel => "Cancelar"@,
        UiStr::BtnGenerateDbSecret => "\u{1F511} Generar secreto DB"@,
        UiStr::SeaModalTitle => "Generar claves GunDB SEA"@,
        UiStr::SeaModalPlaceholder => "Ingrese la frase secreta..."@,
        UiStr::BtnGenerateDbKeys => "\u{1F511} Generar claves DB"@,
        UiStr::SeaGenerating => "\u{1F504} Generando claves..."@,
        UiStr::SeaKeysGenerated => "\u{2705} Claves SEA generadas y cargadas en memoria."@,
        UiStr::BtnClose => "Cerrar"@,
        UiStr::LblBiometric => "Identificación biométrica"@,
        UiStr::LblBiometricDesc => "Usar autenticación biométrica para proteger su billetera"@,
        UiStr::BiometricRequiredToSave => "Por favor, active la Identificación biométrica en Ajustes antes de guardar su secreto."@,
        UiStr::LblNickname => "Apodo"@,
        UiStr::LblNicknamePh => "Ingrese su apodo..."@,
        UiStr::BtnSaveNickname => "\u{1F4BE} Guardar"@,
        UiStr::NicknameSaved => "\u{2705} ¡Apodo guardado!"@,
        UiStr::LblParents => "Padres"@,
        UiStr::LblWorkers => "Trabajadores"@,
        UiStr::BtnNewWorker => "\u{2795} Nuevo"@,
        UiStr::NetworkNoKey => "\u{26A0}\u{FE0F} Cargue una clave primero (pestaña Ajustes)."@,
        UiStr::BtnBurn => "\u{1F525} Quemar"@,
        UiStr::BtnMint => "\u{1FA99} Acuñar"@,
        UiStr::BtnOk => "OK"@,
        UiStr::LblGunAddress => "Dirección del nodo GUN"@,
        UiStr::LblGunRelayUrl => "URL del relé GUN"@,
        UiStr::LblGunRelayPh => "https://your-server.com/gun"@,
        UiStr::BtnSaveGunRelay => "Guardar"@,
        UiStr::SssModalTitle => "\u{1F512} Partes de recuperación"@,
        UiStr::SssModalDescription => "Distribuye estas partes a tus nodos de confianza. 3 de 7 son suficientes para reconstruir tu secreto."@,
        UiStr::BtnCopyShare => "\u{1F4CB} Copiar"@,
        UiStr::SssShareCopied => "\u{2705} ¡Copiado!"@,
        UiStr::TabZsozso => "ZS"@,
        UiStr::LblXlmBalance => "XLM"@,
        UiStr::LblZsozsoBalance => "ZSOZSO"@,
        UiStr::LblLockedZsozso => "ZSOZSO bloqueado"@,
        UiStr::BtnLock => "\u{1F512} Bloquear"@,
        UiStr::BtnUnlock => "\u{1F513} Desbloquear"@,
        UiStr::BtnRefreshBalances => "\u{1F504} Actualizar"@,
        UiStr::ZsFetchingBalances => "\u{1F504} Obteniendo saldos..."@,
        UiStr::ZsMainnetOnly => "ZSOZSO solo está disponible en Mainnet. Cambie a Mainnet en Ajustes."@,
        UiStr::ZsNoKey => "Cargue una clave primero en Ajustes."@,
        UiStr::ZsLocking => "\u{1F512} Bloqueando ZSOZSO..."@,
        UiStr::ZsUnlocking => "\u{1F513} Desbloqueando ZSOZSO..."@,
        UiStr::ZsInvalidAmount => "Por favor, ingrese un monto válido."@,
        UiStr::LblAmount => "Monto"@,
        UiStr::LblMainnetAccount => "Cuenta Mainnet"@,
        UiStr::LblTestnetAccount => "Cuenta Testnet"@,
        UiStr::LblNoAccount => "Sin cuenta"@,
        UiStr::TabHome => english_str(UiStr::TabHome),
        UiStr::LblMainnetKeys => english_str(UiStr::LblMainnetKeys),
        UiStr::LblTestnetKeys => english_str(UiStr::LblTestnetKeys),
        UiStr::LblPinCode => english_str(UiStr::LblPinCode),
        UiStr::LblPinCodeDesc => english_str(UiStr::LblPinCodeDesc),
        UiStr::LblPinCodePh => english_str(UiStr::LblPinCodePh),
        UiStr::BtnSetPin => english_str(UiStr::BtnSetPin),
    }
}

/// The English table of (prefix, suffix) pairs around an embedded value.
pub open spec fn english_fmt(k: UiFmt) -> (Seq<char>, Seq<char>) {
    match k {
        UiFmt::KeyLoadedLen => ("📥 Key loaded, length: "@, Seq::<char>::empty()),
        UiFmt::FmtSuccess => ("✅ SUCCESS! "@, Seq::<char>::empty()),
        UiFmt::FmtError => ("❌ "@, Seq::<char>::empty()),
        UiFmt::PingSuccess => ("\u{2705} "@, Seq::<char>::empty()),
        UiFmt::PingError => ("\u{274C} "@, Seq::<char>::empty()),
        UiFmt::ScanSuccess => ("\u{2705} Scanned: "@, Seq::<char>::empty()),
        UiFmt::ScanError => ("\u{274C} Scan failed: "@, Seq::<char>::empty()),
        UiFmt::LogSaveFail => ("\u{274C} Save failed: "@, Seq::<char>::empty()),
        UiFmt::InfoVersion => ("Version: "@, Seq::<char>::empty()),
        UiFmt::SeaGenerationError => ("\u{274C} Key generation failed: "@, Seq::<char>::empty()),
        UiFmt::NicknameSaveError => ("\u{274C} Failed to save nickname: "@, Seq::<char>::empty()),
        UiFmt::NetworkAddWorkerSuccess => ("\u{2705} Worker added: "@, Seq::<char>::empty()),
        UiFmt::NetworkAddWorkerError => ("\u{274C} Failed to add worker: "@, Seq::<char>::empty()),
        UiFmt::CyfNotImplemented => ("The "@, " function is not yet implemented."@),
        UiFmt::SssShareLabel => ("Share "@, Seq::<char>::empty()),
        UiFmt::FmtZsLockSuccess => ("\u{2705} Locked "@, " ZSOZSO"@),
        UiFmt::FmtZsUnlockSuccess => ("\u{2705} Unlocked "@, " ZSOZSO"@),
        UiFmt::FmtZsLockError => ("\u{274C} Lock failed: "@, Seq::<char>::empty()),
        UiFmt::FmtZsUnlockError => ("\u{274C} Unlock failed: "@, Seq::<char>::empty()),
    }
}

/// The French table of (prefix, suffix) pairs around an embedded value.
pub open spec fn french_fmt(k: UiFmt) -> (Seq<char>, Seq<char>) {
    match k {
        UiFmt::KeyLoadedLen => ("📥 Clé chargée, longueur : "@, Seq::<char>::empty()),
        UiFmt::FmtSuccess => ("✅ SUCCÈS ! "@, Seq::<char>::empty()),
        UiFmt::FmtError => ("❌ "@, Seq::<char>::empty()),
        UiFmt::PingSuccess => ("\u{2705} "@, Seq::<char>::empty()),
        UiFmt::PingError => ("\u{274C} "@, Seq::<char>::empty()),
        UiFmt::ScanSuccess => ("\u{2705} Scanné : "@, Seq::<char>::empty()),
        UiFmt::ScanError => ("\u{274C} Échec du scan : "@, Seq::<char>::empty()),
        UiFmt::LogSaveFail => english_fmt(UiFmt::LogSaveFail),
        UiFmt::InfoVersion => ("Version\u{00A0}: "@, Seq::<char>::empty()),
        UiFmt::SeaGenerationError => english_fmt(UiFmt::SeaGenerationError),
        UiFmt::NicknameSaveError => english_fmt(UiFmt::NicknameSaveError),
        UiFmt::NetworkAddWorkerSuccess => english_fmt(UiFmt::NetworkAddWorkerSuccess),
        UiFmt::NetworkAddWorkerError => english_fmt(UiFmt::NetworkAddWorkerError),
        UiFmt::CyfNotImplemented => english_fmt(UiFmt::CyfNotImplemented),
        UiFmt::SssShareLabel => english_fmt(UiFmt::SssShareLabel),
        UiFmt::FmtZsLockSuccess => english_fmt(UiFmt::FmtZsLockSuccess),
        UiFmt::FmtZsUnlockSuccess => english_fmt(UiFmt::FmtZsUnlockSuccess),
        UiFmt::FmtZsLockError => english_fmt(UiFmt::FmtZsLockError),
        UiFmt::FmtZsUnlockError => english_fmt(UiFmt::FmtZsUnlockError),
    }
}

/// The German table of (prefix, suffix) pairs around an embedded value.
pub open spec fn german_fmt(k: UiFmt) -> (Seq<char>, Seq<char>) {
    match k {
        UiFmt::KeyLoadedLen => ("📥 Schlüssel geladen, Länge: "@, Seq::<char>::empty()),
        UiFmt::FmtSuccess => ("✅ ERFOLG! "@, Seq::<char>::empty()),
        UiFmt::FmtError => ("❌ "@, Seq::<char>::empty()),
        UiFmt::PingSuccess => ("\u{2705} "@, Seq::<char>::empty()),
        UiFmt::PingError => ("\u{274C} "@, Seq::<char>::empty()),
        UiFmt::ScanSuccess => ("\u{2705} Gescannt: "@, Seq::<char>::empty()),
        UiFmt::ScanError => ("\u{274C} Scan fehlgeschlagen: "@, Seq::<char>::empty()),
        UiFmt::LogSaveFail => english_fmt(UiFmt::LogSaveFail),
        UiFmt::InfoVersion => ("Version: "@, Seq::<char>::empty()),
        UiFmt::SeaGenerationError => english_fmt(UiFmt::SeaGenerationError),
        UiFmt::NicknameSaveError => english_fmt(UiFmt::NicknameSaveError),
        UiFmt::NetworkAddWorkerSuccess => english_fmt(UiFmt::NetworkAddWorkerSuccess),
        UiFmt::NetworkAddWorkerError => english_fmt(UiFmt::NetworkAddWorkerError),
        UiFmt::CyfNotImplemented => english_fmt(UiFmt::CyfNotImplemented),
        UiFmt::SssShareLabel => english_fmt(UiFmt::SssShareLabel),
        UiFmt::FmtZsLockSuccess => english_fmt(UiFmt::FmtZsLockSuccess),
        UiFmt::FmtZsUnlockSuccess => english_fmt(UiFmt::FmtZsUnlockSuccess),
        UiFmt::FmtZsLockError => english_fmt(UiFmt::FmtZsLockError),
        UiFmt::FmtZsUnlockError => english_fmt(UiFmt::FmtZsUnlockError),
    }
}

/// The Hungarian table of (prefix, suffix) pairs around an embedded value.
pub open spec fn hungarian_fmt(k: UiFmt) -> (Seq<char>, Seq<char>) {
    match k {
        UiFmt::KeyLoadedLen => ("📥 Kulcs betöltve, hossza: "@, Seq::<char>::empty()),
        UiFmt::FmtSuccess => ("✅ SIKER! "@, Seq::<char>::empty()),
        UiFmt::FmtError => ("❌ "@, Seq::<char>::empty()),
        UiFmt::PingSuccess => ("\u{2705} "@, Seq::<char>::empty()),
        UiFmt::PingError => ("\u{274C} "@, Seq::<char>::empty()),
        UiFmt::ScanSuccess => ("\u{2705} Beolvasva: "@, Seq::<char>::empty()),
        UiFmt::ScanError => ("\u{274C} Szkennelés sikertelen: "@, Seq::<char>::empty()),
        UiFmt::LogSaveFail => ("\u{274C} Mentés sikertelen: "@, Seq::<char>::empty()),
        UiFmt::InfoVersion => ("Verzió: "@, Seq::<char>::empty()),
        UiFmt::SeaGenerationError => ("\u{274C} Kulcsgenerálás sikertelen: "@, Seq::<char>::empty()),
        UiFmt::NicknameSaveError => ("\u{274C} Becenév mentése sikertelen: "@, Seq::<char>::empty()),
        UiFmt::NetworkAddWorkerSuccess => ("\u{2705} Munkatárs hozzáadva: "@, Seq::<char>::empty()),
        UiFmt::NetworkAddWorkerError => ("\u{274C} Munkatárs hozzáadása sikertelen: "@, Seq::<char>::empty()),
        UiFmt::CyfNotImplemented => ("A(z) "@, " funkció még nincs implementálva."@),
        UiFmt::SssShareLabel => (Seq::<char>::empty(), ". részlet"@),
        UiFmt::FmtZsLockSuccess => ("\u{2705} "@, " ZSOZSO zárolva"@),
        UiFmt::FmtZsUnlockSuccess => ("\u{2705} "@, " ZSOZSO feloldva"@),
        UiFmt::FmtZsLockError => ("\u{274C} Zárolás sikertelen: "@, Seq::<char>::empty()),
        UiFmt::FmtZsUnlockError => ("\u{274C} Feloldás sikertelen: "@, Seq::<char>::empty()),
    }
}

/// The Spanish table of (prefix, suffix) pairs around an embedded value.
pub open spec fn spanish_fmt(k: UiFmt) -> (Seq<char>, Seq<char>) {
    match k {
        UiFmt::KeyLoadedLen => ("📥 Clave cargada, longitud: "@, Seq::<char>::empty()),
        UiFmt::FmtSuccess => ("✅ ¡ÉXITO! "@, Seq::<char>::empty()),
        UiFmt::FmtError => ("❌ "@, Seq::<char>::empty()),
        UiFmt::PingSuccess => ("\u{2705} "@, Seq::<char>::empty()),
        UiFmt::PingError => ("\u{274C} "@, Seq::<char>::empty()),
        UiFmt::ScanSuccess => ("\u{2705} Escaneado: "@, Seq::<char>::empty()),
        UiFmt::ScanError => ("\u{274C} Error al escanear: "@, Seq::<char>::empty()),
        UiFmt::LogSaveFail => ("\u{274C} Error al guardar: "@, Seq::<char>::empty()),
        UiFmt::InfoVersion => ("Versión: "@, Seq::<char>::empty()),
        UiFmt::SeaGenerationError => ("\u{274C} Error al generar claves: "@, Seq::<char>::empty()),
        UiFmt::NicknameSaveError => ("\u{274C} Error al guardar el apodo: "@, Seq::<char>::empty()),
        UiFmt::NetworkAddWorkerSuccess => ("\u{2705} Trabajador añadido: "@, Seq::<char>::empty()),
        UiFmt::NetworkAddWorkerError => ("\u{274C} Error al añadir trabajador: "@, Seq::<char>::empty()),
        UiFmt::CyfNotImplemented => ("La función "@, " aún no está implementada."@),
        UiFmt::SssShareLabel => ("Parte "@, Seq::<char>::empty()),
        UiFmt::FmtZsLockSuccess => ("\u{2705} "@, " ZSOZSO bloqueado"@),
        UiFmt::FmtZsUnlockSuccess => ("\u{2705} "@, " ZSOZSO desbloqueado"@),
        UiFmt::FmtZsLockError => ("\u{274C} Bloqueo fallido: "@, Seq::<char>::empty()),
        UiFmt::FmtZsUnlockError => ("\u{274C} Desbloqueo fallido: "@, Seq::<char>::empty()),
    }
}

/// The fixed text `k` in language `lang`.
pub open spec fn ui_str(lang: Language, k: UiStr) -> Seq<char> {
    match lang {
        Language::English => english_str(k),
        Language::French => french_str(k),
        Language::German => german_str(k),
        Language::Hungarian => hungarian_str(k),
        Language::Spanish => spanish_str(k),
    }
}

/// The prefix and suffix that surround the embedded value of text `k` in language `lang`.
pub open spec fn ui_fmt(lang: Language, k: UiFmt) -> (Seq<char>, Seq<char>) {
    match lang {
        Language::English => english_fmt(k),
        Language::French => french_fmt(k),
        Language::German => german_fmt(k),
        Language::Hungarian => hungarian_fmt(k),
        Language::Spanish => spanish_fmt(k),
    }
}

/// The text `k` of language `lang` around the value `v`.
pub open spec fn ui_fmt_with(lang: Language, k: UiFmt, v: Seq<char>) -> Seq<char> {
    ui_fmt(lang, k).0 + v + ui_fmt(lang, k).1
}

/// The three fixed pieces of the "XDR ready" message: before the network name,
/// between the network name and the sequence number, and after the sequence number.
pub open spec fn xdr_ready_parts(lang: Language) -> (Seq<char>, Seq<char>, Seq<char>) {
    match lang {
        Language::English => ("✅ XDR Ready! ["@, "] (Seq: "@, ")"@),
        Language::French => ("✅ XDR Prêt ! ["@, "] (Séq : "@, ")"@),
        Language::German => ("✅ XDR bereit! ["@, "] (Seq: "@, ")"@),
        Language::Hungarian => ("✅ XDR Kész! ["@, "] (Seq: "@, ")"@),
        Language::Spanish => ("✅ ¡XDR listo! ["@, "] (Sec: "@, ")"@),
    }
}

/// The "XDR ready" message of language `lang` for network name `net` and sequence number `seq`.
pub open spec fn xdr_ready_text(lang: Language, net: Seq<char>, seq: int) -> Seq<char> {
    xdr_ready_parts(lang).0 + net + xdr_ready_parts(lang).1 + decimal_int(seq) + xdr_ready_parts(lang).2
}

/// All user-interface text, in one language.
pub trait UiI18n {
    /// The language this implementation speaks.
    spec fn lang(&self) -> Language;

    fn no_key_loaded(&self) -> (r: &'static str)
        ensures
            r@ == ui_str(self.lang(), UiStr::NoKeyLoaded),
    ;

    fn copy_label(&self) -> (r: &'static str)
        ensures
            r@ == ui_str(self.lang(), UiStr::CopyLabel),
    ;

    fn copy_xdr_label(&self) -> (r: &'static str)
        ensures
            r@ == ui_str(self.lang(), UiStr::CopyXdrLabel),
    ;

    fn waiting(&self) -> (r: &'static str)
        ensures
            r@ == ui_str(self.lang(), UiStr::Waiting),
    ;

    fn err_no_generated_xdr(&self) -> (r: &'static str)
        ensures
            r@ == ui_str(self.lang(), UiStr::ErrNoGeneratedXdr),
    ;

    fn submitting(&self) -> (r: &'static str)
        ensures
            r@ == ui_str(self.lang(), UiStr::Submitting),
    ;

    fn calling_faucet(&self) -> (r: &'static str)
        ensures
            r@ == ui_str(self.lang(), UiStr::CallingFaucet),
    ;

    fn no_loaded_key(&self) -> (r: &'static str)
        ensures
            r@ == ui_str(self.lang(), UiStr::NoLoadedKey),
    ;

    fn fetching_sequence(&self) -> (r: &'static str)
        ensures
            r@ == ui_str(self.lang(), UiStr::FetchingSequence),
    ;

    fn clipboard_cleared(&self) -> (r: &'static str)
        ensures
            r@ == ui_str(self.lang(), UiStr::ClipboardCleared),
    ;

    fn save_success(&self) -> (r: &'static str)
        ensures
            r@ == ui_str(self.lang(), UiStr::SaveSuccess),
    ;

    fn nothing_to_save(&self) -> (r: &'static str)
        ensures
            r@ == ui_str(self.lang(), UiStr::NothingToSave),
    ;

    fn loading_started(&self) -> (r: &'static str)
        ensures
            r@ == ui_str(self.lang(), UiStr::LoadingStarted),
    ;

    fn key_loaded_len(&self, len: usize) -> (r: String)
        ensures
            r@ == ui_fmt_with(self.lang(), UiFmt::KeyLoadedLen, decimal_nat(len as nat)),
    ;

    fn ui_updated_with_key(&self) -> (r: &'static str)
        ensures
            r@ == ui_str(self.lang(), UiStr::UiUpdatedWithKey),
    ;

    fn fmt_success(&self, msg: &str) -> (r: String)
        ensures
            r@ == ui_fmt_with(self.lang(), UiFmt::FmtSuccess, msg@),
    ;

    fn fmt_error(&self, e: &str) -> (r: String)
        ensures
            r@ == ui_fmt_with(self.lang(), UiFmt::FmtError, e@),
    ;

    fn fmt_xdr_ready(&self, net: &str, seq: i64) -> (r: String)
        ensures
            r@ == xdr_ready_text(self.lang(), net@, seq as int),
    ;

    fn btn_new_key(&self) -> (r: &'static str)
        ensures
            r@ == ui_str(self.lang(), UiStr::BtnNewKey),
    ;

    fn btn_import(&self) -> (r: &'static str)
        ensures
            r@ == ui_str(self.lang(), UiStr::BtnImport),
    ;

    fn btn_hide_secret(&self) -> (r: &'static str)
        ensures
            r@ == ui_str(self.lang(), UiStr::BtnHideSecret),
    ;

    fn btn_reveal_secret(&self) -> (r: &'static str)
        ensures
            r@ == ui_str(self.lang(), UiStr::BtnRevealSecret),
    ;

    fn btn_activate_faucet(&self) -> (r: &'static str)
        ensures
            r@ == ui_str(self.lang(), UiStr::BtnActivateFaucet),
    ;

    fn btn_save_to_os(&self) -> (r: &'static str)
        ensures
            r@ == ui_str(self.lang(), UiStr::BtnSaveToOs),
    ;

    fn btn_load(&self) -> (r: &'static str)
        ensures
            r@ == ui_str(self.lang(), UiStr::BtnLoad),
    ;

    fn btn_generate_xdr(&self) -> (r: &'static str)
        ensures
            r@ == ui_str(self.lang(), UiStr::BtnGenerateXdr),
    ;

    fn btn_submit_tx(&self) -> (r: &'static str)
        ensures
            r@ == ui_str(self.lang(), UiStr::BtnSubmitTx),
    ;

    fn lbl_active_address(&self) -> (r: &'static str)
        ensures
            r@ == ui_str(self.lang(), UiStr::LblActiveAddress),
    ;

    fn lbl_signed_xdr(&self) -> (r: &'static str)
        ensures
            r@ == ui_str(self.lang(), UiStr::LblSignedXdr),
    ;

    fn lbl_import_ph(&self) -> (r: &'static str)
        ensures
            r@ == ui_str(self.lang(), UiStr::LblImportPh),
    ;

    fn net_testnet_label(&self) -> (r: &'static str)
        ensures
            r@ == ui_str(self.lang(), UiStr::NetTestnetLabel),
    ;

    fn net_mainnet_label(&self) -> (r: &'static str)
        ensures
            r@ == ui_str(self.lang(), UiStr::NetMainnetLabel),
    ;

    fn copied(&self) -> (r: &'static str)
        ensures
            r@ == ui_str(self.lang(), UiStr::Copied),
    ;

    fn clipboard_modal_text(&self) -> (r: &'static str)
        ensures
            r@ == ui_str(self.lang(), UiStr::ClipboardModalText),
    ;

    fn btn_clear_clipboard(&self) -> (r: &'static str)
        ensures
            r@ == ui_str(self.lang(), UiStr::BtnClearClipboard),
    ;

    fn tab_cyf(&self) -> (r: &'static str)
        ensures
            r@ == ui_str(self.lang(), UiStr::TabCyf),
    ;

    fn tab_networking(&self) -> (r: &'static str)
        ensures
            r@ == ui_str(self.lang(), UiStr::TabNetworking),
    ;

    fn tab_info(&self) -> (r: &'static str)
        ensures
            r@ == ui_str(self.lang(), UiStr::TabInfo),
    ;

    fn tab_settings(&self) -> (r: &'static str)
        ensures
            r@ == ui_str(self.lang(), UiStr::TabSettings),
    ;

    fn gate_title(&self) -> (r: &'static str)
        ensures
            r@ == ui_str(self.lang(), UiStr::GateTitle),
    ;

    fn btn_next(&self) -> (r: &'static str)
        ensures
            r@ == ui_str(self.lang(), UiStr::BtnNext),
    ;

    fn authenticating(&self) -> (r: &'static str)
        ensures
            r@ == ui_str(self.lang(), UiStr::Authenticating),
    ;

    fn auth_failed(&self) -> (r: &'static str)
        ensures
            r@ == ui_str(self.lang(), UiStr::AuthFailed),
    ;

    fn btn_exit(&self) -> (r: &'static str)
        ensures
            r@ == ui_str(self.lang(), UiStr::BtnExit),
    ;

    fn no_prf_key(&self) -> (r: &'static str)
        ensures
            r@ == ui_str(self.lang(), UiStr::NoPrfKey),
    ;

    fn info_public_key_label(&self) -> (r: &'static str)
        ensures
            r@ == ui_str(self.lang(), UiStr::InfoPublicKeyLabel),
    ;

    fn info_no_key(&self) -> (r: &'static str)
        ensures
            r@ == ui_str(self.lang(), UiStr::InfoNoKey),
    ;

    fn btn_ping(&self) -> (r: &'static str)
        ensures
            r@ == ui_str(self.lang(), UiStr::BtnPing),
    ;

    fn ping_calling(&self) -> (r: &'static str)
        ensures
            r@ == ui_str(self.lang(), UiStr::PingCalling),
    ;

    fn ping_success(&self, msg: &str) -> (r: String)
        ensures
            r@ == ui_fmt_with(self.lang(), UiFmt::PingSuccess, msg@),
    ;

    fn ping_error(&self, e: &str) -> (r: String)
        ensures
            r@ == ui_fmt_with(self.lang(), UiFmt::PingError, e@),
    ;

    fn ping_no_key(&self) -> (r: &'static str)
        ensures
            r@ == ui_str(self.lang(), UiStr::PingNoKey),
    ;

    fn btn_scan_qr(&self) -> (r: &'static str)
        ensures
            r@ == ui_str(self.lang(), UiStr::BtnScanQr),
    ;

    fn scan_scanning(&self) -> (r: &'static str)
        ensures
            r@ == ui_str(self.lang(), UiStr::ScanScanning),
    ;

    fn scan_success(&self, key: &str) -> (r: String)
        ensures
            r@ == ui_fmt_with(self.lang(), UiFmt::ScanSuccess, key@),
    ;

    fn scan_error(&self, e: &str) -> (r: String)
        ensures
            r@ == ui_fmt_with(self.lang(), UiFmt::ScanError, e@),
    ;

    fn tab_log(&self) -> (r: &'static str)
        ensures
            r@ == ui_str(self.lang(), UiStr::TabLog),
    ;

    fn log_refresh(&self) -> (r: &'static str)
        ensures
            r@ == ui_str(self.lang(), UiStr::LogRefresh),
    ;

    fn log_clear(&self) -> (r: &'static str)
        ensures
            r@ == ui_str(self.lang(), UiStr::LogClear),
    ;

    fn log_save(&self) -> (r: &'static str)
        ensures
            r@ == ui_str(self.lang(), UiStr::LogSave),
    ;

    fn log_saving(&self) -> (r: &'static str)
        ensures
            r@ == ui_str(self.lang(), UiStr::LogSaving),
    ;

    fn log_save_ok(&self) -> (r: &'static str)
        ensures
            r@ == ui_str(self.lang(), UiStr::LogSaveOk),
    ;

    fn log_save_fail(&self, e: &str) -> (r: String)
        ensures
            r@ == ui_fmt_with(self.lang(), UiFmt::LogSaveFail, e@),
    ;

    fn log_save_empty(&self) -> (r: &'static str)
        ensures
            r@ == ui_str(self.lang(), UiStr::LogSaveEmpty),
    ;

    fn btn_dump_gun_db(&self) -> (r: &'static str)
        ensures
            r@ == ui_str(self.lang(), UiStr::BtnDumpGunDb),
    ;

    fn log_dumping(&self) -> (r: &'static str)
        ensures
            r@ == ui_str(self.lang(), UiStr::LogDumping),
    ;

    fn log_dump_ok(&self) -> (r: &'static str)
        ensures
            r@ == ui_str(self.lang(), UiStr::LogDumpOk),
    ;

    fn toast_update_available(&self) -> (r: &'static str)
        ensures
            r@ == ui_str(self.lang(), UiStr::ToastUpdateAvailable),
    ;

    fn btn_update_now(&self) -> (r: &'static str)
        ensures
            r@ == ui_str(self.lang(), UiStr::BtnUpdateNow),
    ;

    fn info_version(&self, ver: &str) -> (r: String)
        ensures
            r@ == ui_fmt_with(self.lang(), UiFmt::InfoVersion, ver@),
    ;

    fn network_switch_save_prompt(&self) -> (r: &'static str)
        ensures
            r@ == ui_str(self.lang(), UiStr::NetworkSwitchSavePrompt),
    ;

    fn btn_save_and_switch(&self) -> (r: &'static str)
        ensures
            r@ == ui_str(self.lang(), UiStr::BtnSaveAndSwitch),
    ;

    fn btn_switch_and_save(&self) -> (r: &'static str)
        ensures
            r@ == ui_str(self.lang(), UiStr::BtnSwitchAndSave),
    ;

    fn btn_switch_without_saving(&self) -> (r: &'static str)
        ensures
            r@ == ui_str(self.lang(), UiStr::BtnSwitchWithoutSaving),
    ;

    fn btn_cancel(&self) -> (r: &'static str)
        ensures
            r@ == ui_str(self.lang(), UiStr::BtnCancel),
    ;

    fn btn_generate_db_secret(&self) -> (r: &'static str)
        ensures
            r@ == ui_str(self.lang(), UiStr::BtnGenerateDbSecret),
    ;

    fn sea_modal_title(&self) -> (r: &'static str)
        ensures
            r@ == ui_str(self.lang(), UiStr::SeaModalTitle),
    ;

    fn sea_modal_placeholder(&self) -> (r: &'static str)
        ensures
            r@ == ui_str(self.lang(), UiStr::SeaModalPlaceholder),
    ;

    fn btn_generate_db_keys(&self) -> (r: &'static str)
        ensures
            r@ == ui_str(self.lang(), UiStr::BtnGenerateDbKeys),
    ;

    fn sea_generating(&self) -> (r: &'static str)
        ensures
            r@ == ui_str(self.lang(), UiStr::SeaGenerating),
    ;

    fn sea_keys_generated(&self) -> (r: &'static str)
        ensures
            r@ == ui_str(self.lang(), UiStr::SeaKeysGenerated),
    ;

    fn sea_generation_error(&self, e: &str) -> (r: String)
        ensures
            r@ == ui_fmt_with(self.lang(), UiFmt::SeaGenerationError, e@),
    ;

    fn btn_close(&self) -> (r: &'static str)
        ensures
            r@ == ui_str(self.lang(), UiStr::BtnClose),
    ;

    fn lbl_biometric(&self) -> (r: &'static str)
        ensures
            r@ == ui_str(self.lang(), UiStr::LblBiometric),
    ;

    fn lbl_biometric_desc(&self) -> (r: &'static str)
        ensures
            r@ == ui_str(self.lang(), UiStr::LblBiometricDesc),
    ;

    fn biometric_required_to_save(&self) -> (r: &'static str)
        ensures
            r@ == ui_str(self.lang(), UiStr::BiometricRequiredToSave),
    ;

    fn lbl_nickname(&self) -> (r: &'static str)
        ensures
            r@ == ui_str(self.lang(), UiStr::LblNickname),
    ;

    fn lbl_nickname_ph(&self) -> (r: &'static str)
        ensures
            r@ == ui_str(self.lang(), UiStr::LblNicknamePh),
    ;

    fn btn_save_nickname(&self) -> (r: &'static str)
        ensures
            r@ == ui_str(self.lang(), UiStr::BtnSaveNickname),
    ;

    fn nickname_saved(&self) -> (r: &'static str)
        ensures
            r@ == ui_str(self.lang(), UiStr::NicknameSaved),
    ;

    fn nickname_save_error(&self, e: &str) -> (r: String)
        ensures
            r@ == ui_fmt_with(self.lang(), UiFmt::NicknameSaveError, e@),
    ;

    fn lbl_parents(&self) -> (r: &'static str)
        ensures
            r@ == ui_str(self.lang(), UiStr::LblParents),
    ;

    fn lbl_workers(&self) -> (r: &'static str)
        ensures
            r@ == ui_str(self.lang(), UiStr::LblWorkers),
    ;

    fn btn_new_worker(&self) -> (r: &'static str)
        ensures
            r@ == ui_str(self.lang(), UiStr::BtnNewWorker),
    ;

    fn network_no_key(&self) -> (r: &'static str)
        ensures
            r@ == ui_str(self.lang(), UiStr::NetworkNoKey),
    ;

    fn network_add_worker_success(&self, key: &str) -> (r: String)
        ensures
            r@ == ui_fmt_with(self.lang(), UiFmt::NetworkAddWorkerSuccess, key@),
    ;

    fn network_add_worker_error(&self, e: &str) -> (r: String)
        ensures
            r@ == ui_fmt_with(self.lang(), UiFmt::NetworkAddWorkerError, e@),
    ;

    fn btn_burn(&self) -> (r: &'static str)
        ensures
            r@ == ui_str(self.lang(), UiStr::BtnBurn),
    ;

    fn btn_mint(&self) -> (r: &'static str)
        ensures
            r@ == ui_str(self.lang(), UiStr::BtnMint),
    ;

    fn btn_ok(&self) -> (r: &'static str)
        ensures
            r@ == ui_str(self.lang(), UiStr::BtnOk),
    ;

    fn cyf_not_implemented(&self, fn_name: &str) -> (r: String)
        ensures
            r@ == ui_fmt_with(self.lang(), UiFmt::CyfNotImplemented, fn_name@),
    ;

    fn lbl_gun_address(&self) -> (r: &'static str)
        ensures
            r@ == ui_str(self.lang(), UiStr::LblGunAddress),
    ;

    fn lbl_gun_relay_url(&self) -> (r: &'static str)
        ensures
            r@ == ui_str(self.lang(), UiStr::LblGunRelayUrl),
    ;

    fn lbl_gun_relay_ph(&self) -> (r: &'static str)
        ensures
            r@ == ui_str(self.lang(), UiStr::LblGunRelayPh),
    ;

    fn btn_save_gun_relay(&self) -> (r: &'static str)
        ensures
            r@ == ui_str(self.lang(), UiStr::BtnSaveGunRelay),
    ;

    fn sss_modal_title(&self) -> (r: &'static str)
        ensures
            r@ == ui_str(self.lang(), UiStr::SssModalTitle),
    ;

    fn sss_modal_description(&self) -> (r: &'static str)
        ensures
            r@ == ui_str(self.lang(), UiStr::SssModalDescription),
    ;

    fn sss_share_label(&self, n: usize) -> (r: String)
        ensures
            r@ == ui_fmt_with(self.lang(), UiFmt::SssShareLabel, decimal_nat(n as nat)),
    ;

    fn btn_copy_share(&self) -> (r: &'static str)
        ensures
            r@ == ui_str(self.lang(), UiStr::BtnCopyShare),
    ;

    fn sss_share_copied(&self) -> (r: &'static str)
        ensures
            r@ == ui_str(self.lang(), UiStr::SssShareCopied),
    ;

    fn tab_zsozso(&self) -> (r: &'static str)
        ensures
            r@ == ui_str(self.lang(), UiStr::TabZsozso),
    ;

    fn lbl_xlm_balance(&self) -> (r: &'static str)
        ensures
            r@ == ui_str(self.lang(), UiStr::LblXlmBalance),
    ;

    fn lbl_zsozso_balance(&self) -> (r: &'static str)
        ensures
            r@ == ui_str(self.lang(), UiStr::LblZsozsoBalance),
    ;

    fn lbl_locked_zsozso(&self) -> (r: &'static str)
        ensures
            r@ == ui_str(self.lang(), UiStr::LblLockedZsozso),
    ;

    fn btn_lock(&self) -> (r: &'static str)
        ensures
            r@ == ui_str(self.lang(), UiStr::BtnLock),
    ;

    fn btn_unlock(&self) -> (r: &'static str)
        ensures
            r@ == ui_str(self.lang(), UiStr::BtnUnlock),
    ;

    fn btn_refresh_balances(&self) -> (r: &'static str)
        ensures
            r@ == ui_str(self.lang(), UiStr::BtnRefreshBalances),
    ;

    fn zs_fetching_balances(&self) -> (r: &'static str)
        ensures
            r@ == ui_str(self.lang(), UiStr::ZsFetchingBalances),
    ;

    fn zs_mainnet_only(&self) -> (r: &'static str)
        ensures
            r@ == ui_str(self.lang(), UiStr::ZsMainnetOnly),
    ;

    fn zs_no_key(&self) -> (r: &'static str)
        ensures
            r@ == ui_str(self.lang(), UiStr::ZsNoKey),
    ;

    fn zs_locking(&self) -> (r: &'static str)
        ensures
            r@ == ui_str(self.lang(), UiStr::ZsLocking),
    ;

    fn zs_unlocking(&self) -> (r: &'static str)
        ensures
            r@ == ui_str(self.lang(), UiStr::ZsUnlocking),
    ;

    fn fmt_zs_lock_success(&self, amount: &str) -> (r: String)
        ensures
            r@ == ui_fmt_with(self.lang(), UiFmt::FmtZsLockSuccess, amount@),
    ;

    fn fmt_zs_unlock_success(&self, amount: &str) -> (r: String)
        ensures
            r@ == ui_fmt_with(self.lang(), UiFmt::FmtZsUnlockSuccess, amount@),
    ;

    fn fmt_zs_lock_error(&self, err: &str) -> (r: String)
        ensures
            r@ == ui_fmt_with(self.lang(), UiFmt::FmtZsLockError, err@),
    ;

    fn fmt_zs_unlock_error(&self, err: &str) -> (r: String)
        ensures
            r@ == ui_fmt_with(self.lang(), UiFmt::FmtZsUnlockError, err@),
    ;

    fn zs_invalid_amount(&self) -> (r: &'static str)
        ensures
            r@ == ui_str(self.lang(), UiStr::ZsInvalidAmount),
    ;

    fn lbl_amount(&self) -> (r: &'static str)
        ensures
            r@ == ui_str(self.lang(), UiStr::LblAmount),
    ;

    fn lbl_mainnet_account(&self) -> (r: &'static str)
        ensures
            r@ == ui_str(self.lang(), UiStr::LblMainnetAccount),
    ;

    fn lbl_testnet_account(&self) -> (r: &'static str)
        ensures
            r@ == ui_str(self.lang(), UiStr::LblTestnetAccount),
    ;

    fn lbl_no_account(&self) -> (r: &'static str)
        ensures
            r@ == ui_str(self.lang(), UiStr::LblNoAccount),
    ;

    fn tab_home(&self) -> (r: &'static str)
        ensures
            r@ == ui_str(self.lang(), UiStr::TabHome),
    ;

    fn lbl_mainnet_keys(&self) -> (r: &'static str)
        ensures
            r@ == ui_str(self.lang(), UiStr::LblMainnetKeys),
    ;

    fn lbl_testnet_keys(&self) -> (r: &'static str)
        ensures
            r@ == ui_str(self.lang(), UiStr::LblTestnetKeys),
    ;

    fn lbl_pin_code(&self) -> (r: &'static str)
        ensures
            r@ == ui_str(self.lang(), UiStr::LblPinCode),
    ;

    fn lbl_pin_code_desc(&self) -> (r: &'static str)
        ensures
            r@ == ui_str(self.lang(), UiStr::LblPinCodeDesc),
    ;

    fn lbl_pin_code_ph(&self) -> (r: &'static str)
        ensures
            r@ == ui_str(self.lang(), UiStr::LblPinCodePh),
    ;

    fn btn_set_pin(&self) -> (r: &'static str)
        ensures
            r@ == ui_str(self.lang(), UiStr::BtnSetPin),
    ;

}

/// The interface text of one language, chosen at run time.
pub struct UiText {
    pub lang: Language,
}

impl UiText {
    /// The interface text of `lang`.
    pub fn new(lang: Language) -> (r: Self)
        ensures
            r.lang() == lang,
    {
        UiText { lang }
    }
}

impl UiI18n for UiText {
    open spec fn lang(&self) -> Language {
        self.lang
    }

    fn no_key_loaded(&self) -> (r: &'static str) {
        match self.lang {
            Language::English => EnglishUi.no_key_loaded(),
            Language::French => FrenchUi.no_key_loaded(),
            Language::German => GermanUi.no_key_loaded(),
            Language::Hungarian => HungarianUi.no_key_loaded(),
            Language::Spanish => SpanishUi.no_key_loaded(),
        }
    }

    fn copy_label(&self) -> (r: &'static str) {
        match self.lang {
            Language::English => EnglishUi.copy_label(),
            Language::French => FrenchUi.copy_label(),
            Language::German => GermanUi.copy_label(),
            Language::Hungarian => HungarianUi.copy_label(),
            Language::Spanish => SpanishUi.copy_label(),
        }
    }

    fn copy_xdr_label(&self) -> (r: &'static str) {
        match self.lang {
            Language::English => EnglishUi.copy_xdr_label(),
            Language::French => FrenchUi.copy_xdr_label(),
            Language::German => GermanUi.copy_xdr_label(),
            Language::Hungarian => HungarianUi.copy_xdr_label(),
            Language::Spanish => SpanishUi.copy_xdr_label(),
        }
    }

    fn waiting(&self) -> (r: &'static str) {
        match self.lang {
            Language::English => EnglishUi.waiting(),
            Language::French => FrenchUi.waiting(),
            Language::German => GermanUi.waiting(),
            Language::Hungarian => HungarianUi.waiting(),
            Language::Spanish => SpanishUi.waiting(),
        }
    }

    fn err_no_generated_xdr(&self) -> (r: &'static str) {
        match self.lang {
            Language::English => EnglishUi.err_no_generated_xdr(),
            Language::French => FrenchUi.err_no_generated_xdr(),
            Language::German => GermanUi.err_no_generated_xdr(),
            Language::Hungarian => HungarianUi.err_no_generated_xdr(),
            Language::Spanish => SpanishUi.err_no_generated_xdr(),
        }
    }

    fn submitting(&self) -> (r: &'static str) {
        match self.lang {
            Language::English => EnglishUi.submitting(),
            Language::French => FrenchUi.submitting(),
            Language::German => GermanUi.submitting(),
            Language::Hungarian => HungarianUi.submitting(),
            Language::Spanish => SpanishUi.submitting(),
        }
    }

    fn calling_faucet(&self) -> (r: &'static str) {
        match self.lang {
            Language::English => EnglishUi.calling_faucet(),
            Language::French => FrenchUi.calling_faucet(),
            Language::German => GermanUi.calling_faucet(),
            Language::Hungarian => HungarianUi.calling_faucet(),
            Language::Spanish => SpanishUi.calling_faucet(),
        }
    }

    fn no_loaded_key(&self) -> (r: &'static str) {
        match self.lang {
            Language::English => EnglishUi.no_loaded_key(),
            Language::French => FrenchUi.no_loaded_key(),
            Language::German => GermanUi.no_loaded_key(),
            Language::Hungarian => HungarianUi.no_loaded_key(),
            Language::Spanish => SpanishUi.no_loaded_key(),
        }
    }

    fn fetching_sequence(&self) -> (r: &'static str) {
        match self.lang {
            Language::English => EnglishUi.fetching_sequence(),
            Language::French => FrenchUi.fetching_sequence(),
            Language::German => GermanUi.fetching_sequence(),
            Language::Hungarian => HungarianUi.fetching_sequence(),
            Language::Spanish => SpanishUi.fetching_sequence(),
        }
    }

    fn clipboard_cleared(&self) -> (r: &'static str) {
        match self.lang {
            Language::English => EnglishUi.clipboard_cleared(),
            Language::French => FrenchUi.clipboard_cleared(),
            Language::German => GermanUi.clipboard_cleared(),
            Language::Hungarian => HungarianUi.clipboard_cleared(),
            Language::Spanish => SpanishUi.clipboard_cleared(),
        }
    }

    fn save_success(&self) -> (r: &'static str) {
        match self.lang {
            Language::English => EnglishUi.save_success(),
            Language::French => FrenchUi.save_success(),
            Language::German => GermanUi.save_success(),
            Language::Hungarian => HungarianUi.save_success(),
            Language::Spanish => SpanishUi.save_success(),
        }
    }

    fn nothing_to_save(&self) -> (r: &'static str) {
        match self.lang {
            Language::English => EnglishUi.nothing_to_save(),
            Language::French => FrenchUi.nothing_to_save(),
            Language::German => GermanUi.nothing_to_save(),
            Language::Hungarian => HungarianUi.nothing_to_save(),
            Language::Spanish => SpanishUi.nothing_to_save(),
        }
    }

    fn loading_started(&self) -> (r: &'static str) {
        match self.lang {
            Language::English => EnglishUi.loading_started(),
            Language::French => FrenchUi.loading_started(),
            Language::German => GermanUi.loading_started(),
            Language::Hungarian => HungarianUi.loading_started(),
            Language::Spanish => SpanishUi.loading_started(),
        }
    }

    fn key_loaded_len(&self, len: usize) -> (r: String) {
        match self.lang {
            Language::English => EnglishUi.key_loaded_len(len),
            Language::French => FrenchUi.key_loaded_len(len),
            Language::German => GermanUi.key_loaded_len(len),
            Language::Hungarian => HungarianUi.key_loaded_len(len),
            Language::Spanish => SpanishUi.key_loaded_len(len),
        }
    }

    fn ui_updated_with_key(&self) -> (r: &'static str) {
        match self.lang {
            Language::English => EnglishUi.ui_updated_with_key(),
            Language::French => FrenchUi.ui_updated_with_key(),
            Language::German => GermanUi.ui_updated_with_key(),
            Language::Hungarian => HungarianUi.ui_updated_with_key(),
            Language::Spanish => SpanishUi.ui_updated_with_key(),
        }
    }

    fn fmt_success(&self, msg: &str) -> (r: String) {
        match self.lang {
            Language::English => EnglishUi.fmt_success(msg),
            Language::French => FrenchUi.fmt_success(msg),
            Language::German => GermanUi.fmt_success(msg),
            Language::Hungarian => HungarianUi.fmt_success(msg),
            Language::Spanish => SpanishUi.fmt_success(msg),
        }
    }

    fn fmt_error(&self, e: &str) -> (r: String) {
        match self.lang {
            Language::English => EnglishUi.fmt_error(e),
            Language::French => FrenchUi.fmt_error(e),
            Language::German => GermanUi.fmt_error(e),
            Language::Hungarian => HungarianUi.fmt_error(e),
            Language::Spanish => SpanishUi.fmt_error(e),
        }
    }

    fn fmt_xdr_ready(&self, net: &str, seq: i64) -> (r: String) {
        match self.lang {
            Language::English => EnglishUi.fmt_xdr_ready(net, seq),
            Language::French => FrenchUi.fmt_xdr_ready(net, seq),
            Language::German => GermanUi.fmt_xdr_ready(net, seq),
            Language::Hungarian => HungarianUi.fmt_xdr_ready(net, seq),
            Language::Spanish => SpanishUi.fmt_xdr_ready(net, seq),
        }
    }

    fn btn_new_key(&self) -> (r: &'static str) {
        match self.lang {
            Language::English => EnglishUi.btn_new_key(),
            Language::French => FrenchUi.btn_new_key(),
            Language::German => GermanUi.btn_new_key(),
            Language::Hungarian => HungarianUi.btn_new_key(),
            Language::Spanish => SpanishUi.btn_new_key(),
        }
    }

    fn btn_import(&self) -> (r: &'static str) {
        match self.lang {
            Language::English => EnglishUi.btn_import(),
            Language::French => FrenchUi.btn_import(),
            Language::German => GermanUi.btn_import(),
            Language::Hungarian => HungarianUi.btn_import(),
            Language::Spanish => SpanishUi.btn_import(),
        }
    }

    fn btn_hide_secret(&self) -> (r: &'static str) {
        match self.lang {
            Language::English => EnglishUi.btn_hide_secret(),
            Language::French => FrenchUi.btn_hide_secret(),
            Language::German => GermanUi.btn_hide_secret(),
            Language::Hungarian => HungarianUi.btn_hide_secret(),
            Language::Spanish => SpanishUi.btn_hide_secret(),
        }
    }

    fn btn_reveal_secret(&self) -> (r: &'static str) {
        match self.lang {
            Language::English => EnglishUi.btn_reveal_secret(),
            Language::French => FrenchUi.btn_reveal_secret(),
            Language::German => GermanUi.btn_reveal_secret(),
            Language::Hungarian => HungarianUi.btn_reveal_secret(),
            Language::Spanish => SpanishUi.btn_reveal_secret(),
        }
    }

    fn btn_activate_faucet(&self) -> (r: &'static str) {
        match self.lang {
            Language::English => EnglishUi.btn_activate_faucet(),
            Language::French => FrenchUi.btn_activate_faucet(),
            Language::German => GermanUi.btn_activate_faucet(),
            Language::Hungarian => HungarianUi.btn_activate_faucet(),
            Language::Spanish => SpanishUi.btn_activate_faucet(),
        }
    }

    fn btn_save_to_os(&self) -> (r: &'static str) {
        match self.lang {
            Language::English => EnglishUi.btn_save_to_os(),
            Language::French => FrenchUi.btn_save_to_os(),
            Language::German => GermanUi.btn_save_to_os(),
            Language::Hungarian => HungarianUi.btn_save_to_os(),
            Language::Spanish => SpanishUi.btn_save_to_os(),
        }
    }

    fn btn_load(&self) -> (r: &'static str) {
        match self.lang {
            Language::English => EnglishUi.btn_load(),
            Language::French => FrenchUi.btn_load(),
            Language::German => GermanUi.btn_load(),
            Language::Hungarian => HungarianUi.btn_load(),
            Language::Spanish => SpanishUi.btn_load(),
        }
    }

    fn btn_generate_xdr(&self) -> (r: &'static str) {
        match self.lang {
            Language::English => EnglishUi.btn_generate_xdr(),
            Language::French => FrenchUi.btn_generate_xdr(),
            Language::German => GermanUi.btn_generate_xdr(),
            Language::Hungarian => HungarianUi.btn_generate_xdr(),
            Language::Spanish => SpanishUi.btn_generate_xdr(),
        }
    }

    fn btn_submit_tx(&self) -> (r: &'static str) {
        match self.lang {
            Language::English => EnglishUi.btn_submit_tx(),
            Language::French => FrenchUi.btn_submit_tx(),
            Language::German => GermanUi.btn_submit_tx(),
            Language::Hungarian => HungarianUi.btn_submit_tx(),
            Language::Spanish => SpanishUi.btn_submit_tx(),
        }
    }

    fn lbl_active_address(&self) -> (r: &'static str) {
        match self.lang {
            Language::English => EnglishUi.lbl_active_address(),
            Language::French => FrenchUi.lbl_active_address(),
            Language::German => GermanUi.lbl_active_address(),
            Language::Hungarian => HungarianUi.lbl_active_address(),
            Language::Spanish => SpanishUi.lbl_active_address(),
        }
    }

    fn lbl_signed_xdr(&self) -> (r: &'static str) {
        match self.lang {
            Language::English => EnglishUi.lbl_signed_xdr(),
            Language::French => FrenchUi.lbl_signed_xdr(),
            Language::German => GermanUi.lbl_signed_xdr(),
            Language::Hungarian => HungarianUi.lbl_signed_xdr(),
            Language::Spanish => SpanishUi.lbl_signed_xdr(),
        }
    }

    fn lbl_import_ph(&self) -> (r: &'static str) {
        match self.lang {
            Language::English => EnglishUi.lbl_import_ph(),
            Language::French => FrenchUi.lbl_import_ph(),
            Language::German => GermanUi.lbl_import_ph(),
            Language::Hungarian => HungarianUi.lbl_import_ph(),
            Language::Spanish => SpanishUi.lbl_import_ph(),
        }
    }

    fn net_testnet_label(&self) -> (r: &'static str) {
        match self.lang {
            Language::English => EnglishUi.net_testnet_label(),
            Language::French => FrenchUi.net_testnet_label(),
            Language::German => GermanUi.net_testnet_label(),
            Language::Hungarian => HungarianUi.net_testnet_label(),
            Language::Spanish => SpanishUi.net_testnet_label(),
        }
    }

    fn net_mainnet_label(&self) -> (r: &'static str) {
        match self.lang {
            Language::English => EnglishUi.net_mainnet_label(),
            Language::French => FrenchUi.net_mainnet_label(),
            Language::German => GermanUi.net_mainnet_label(),
            Language::Hungarian => HungarianUi.net_mainnet_label(),
            Language::Spanish => SpanishUi.net_mainnet_label(),
        }
    }

    fn copied(&self) -> (r: &'static str) {
        match self.lang {
            Language::English => EnglishUi.copied(),
            Language::French => FrenchUi.copied(),
            Language::German => GermanUi.copied(),
            Language::Hungarian => HungarianUi.copied(),
            Language::Spanish => SpanishUi.copied(),
        }
    }

    fn clipboard_modal_text(&self) -> (r: &'static str) {
        match self.lang {
            Language::English => EnglishUi.clipboard_modal_text(),
            Language::French => FrenchUi.clipboard_modal_text(),
            Language::German => GermanUi.clipboard_modal_text(),
            Language::Hungarian => HungarianUi.clipboard_modal_text(),
            Language::Spanish => SpanishUi.clipboard_modal_text(),
        }
    }

    fn btn_clear_clipboard(&self) -> (r: &'static str) {
        match self.lang {
            Language::English => EnglishUi.btn_clear_clipboard(),
            Language::French => FrenchUi.btn_clear_clipboard(),
            Language::German => GermanUi.btn_clear_clipboard(),
            Language::Hungarian => HungarianUi.btn_clear_clipboard(),
            Language::Spanish => SpanishUi.btn_clear_clipboard(),
        }
    }

    fn tab_cyf(&self) -> (r: &'static str) {
        match self.lang {
            Language::English => EnglishUi.tab_cyf(),
            Language::French => FrenchUi.tab_cyf(),
            Language::German => GermanUi.tab_cyf(),
            Language::Hungarian => HungarianUi.tab_cyf(),
            Language::Spanish => SpanishUi.tab_cyf(),
        }
    }

    fn tab_networking(&self) -> (r: &'static str) {
        match self.lang {
            Language::English => EnglishUi.tab_networking(),
            Language::French => FrenchUi.tab_networking(),
            Language::German => GermanUi.tab_networking(),
            Language::Hungarian => HungarianUi.tab_networking(),
            Language::Spanish => SpanishUi.tab_networking(),
        }
    }

    fn tab_info(&self) -> (r: &'static str) {
        match self.lang {
            Language::English => EnglishUi.tab_info(),
            Language::French => FrenchUi.tab_info(),
            Language::German => GermanUi.tab_info(),
            Language::Hungarian => HungarianUi.tab_info(),
            Language::Spanish => SpanishUi.tab_info(),
        }
    }

    fn tab_settings(&self) -> (r: &'static str) {
        match self.lang {
            Language::English => EnglishUi.tab_settings(),
            Language::French => FrenchUi.tab_settings(),
            Language::German => GermanUi.tab_settings(),
            Language::Hungarian => HungarianUi.tab_settings(),
            Language::Spanish => SpanishUi.tab_settings(),
        }
    }

    fn gate_title(&self) -> (r: &'static str) {
        match self.lang {
            Language::English => EnglishUi.gate_title(),
            Language::French => FrenchUi.gate_title(),
            Language::German => GermanUi.gate_title(),
            Language::Hungarian => HungarianUi.gate_title(),
            Language::Spanish => SpanishUi.gate_title(),
        }
    }

    fn btn_next(&self) -> (r: &'static str) {
        match self.lang {
            Language::English => EnglishUi.btn_next(),
            Language::French => FrenchUi.btn_next(),
            Language::German => GermanUi.btn_next(),
            Language::Hungarian => HungarianUi.btn_next(),
            Language::Spanish => SpanishUi.btn_next(),
        }
    }

    fn authenticating(&self) -> (r: &'static str) {
        match self.lang {
            Language::English => EnglishUi.authenticating(),
            Language::French => FrenchUi.authenticating(),
            Language::German => GermanUi.authenticating(),
            Language::Hungarian => HungarianUi.authenticating(),
            Language::Spanish => SpanishUi.authenticating(),
        }
    }

    fn auth_failed(&self) -> (r: &'static str) {
        match self.lang {
            Language::English => EnglishUi.auth_failed(),
            Language::French => FrenchUi.auth_failed(),
            Language::German => GermanUi.auth_failed(),
            Language::Hungarian => HungarianUi.auth_failed(),
            Language::Spanish => SpanishUi.auth_failed(),
        }
    }

    fn btn_exit(&self) -> (r: &'static str) {
        match self.lang {
            Language::English => EnglishUi.btn_exit(),
            Language::French => FrenchUi.btn_exit(),
            Language::German => GermanUi.btn_exit(),
            Language::Hungarian => HungarianUi.btn_exit(),
            Language::Spanish => SpanishUi.btn_exit(),
        }
    }

    fn no_prf_key(&self) -> (r: &'static str) {
        match self.lang {
            Language::English => EnglishUi.no_prf_key(),
            Language::French => FrenchUi.no_prf_key(),
            Language::German => GermanUi.no_prf_key(),
            Language::Hungarian => HungarianUi.no_prf_key(),
            Language::Spanish => SpanishUi.no_prf_key(),
        }
    }

    fn info_public_key_label(&self) -> (r: &'static str) {
        match self.lang {
            Language::English => EnglishUi.info_public_key_label(),
            Language::French => FrenchUi.info_public_key_label(),
            Language::German => GermanUi.info_public_key_label(),
            Language::Hungarian => HungarianUi.info_public_key_label(),
            Language::Spanish => SpanishUi.info_public_key_label(),
        }
    }

    fn info_no_key(&self) -> (r: &'static str) {
        match self.lang {
            Language::English => EnglishUi.info_no_key(),
            Language::French => FrenchUi.info_no_key(),
            Language::German => GermanUi.info_no_key(),
            Language::Hungarian => HungarianUi.info_no_key(),
            Language::Spanish => SpanishUi.info_no_key(),
        }
    }

    fn btn_ping(&self) -> (r: &'static str) {
        match self.lang {
            Language::English => EnglishUi.btn_ping(),
            Language::French => FrenchUi.btn_ping(),
            Language::German => GermanUi.btn_ping(),
            Language::Hungarian => HungarianUi.btn_ping(),
            Language::Spanish => SpanishUi.btn_ping(),
        }
    }

    fn ping_calling(&self) -> (r: &'static str) {
        match self.lang {
            Language::English => EnglishUi.ping_calling(),
            Language::French => FrenchUi.ping_calling(),
            Language::German => GermanUi.ping_calling(),
            Language::Hungarian => HungarianUi.ping_calling(),
            Language::Spanish => SpanishUi.ping_calling(),
        }
    }

    fn ping_success(&self, msg: &str) -> (r: String) {
        match self.lang {
            Language::English => EnglishUi.ping_success(msg),
            Language::French => FrenchUi.ping_success(msg),
            Language::German => GermanUi.ping_success(msg),
            Language::Hungarian => HungarianUi.ping_success(msg),
            Language::Spanish => SpanishUi.ping_success(msg),
        }
    }

    fn ping_error(&self, e: &str) -> (r: String) {
        match self.lang {
            Language::English => EnglishUi.ping_error(e),
            Language::French => FrenchUi.ping_error(e),
            Language::German => GermanUi.ping_error(e),
            Language::Hungarian => HungarianUi.ping_error(e),
            Language::Spanish => SpanishUi.ping_error(e),
        }
    }

    fn ping_no_key(&self) -> (r: &'static str) {
        match self.lang {
            Language::English => EnglishUi.ping_no_key(),
            Language::French => FrenchUi.ping_no_key(),
            Language::German => GermanUi.ping_no_key(),
            Language::Hungarian => HungarianUi.ping_no_key(),
            Language::Spanish => SpanishUi.ping_no_key(),
        }
    }

    fn btn_scan_qr(&self) -> (r: &'static str) {
        match self.lang {
            Language::English => EnglishUi.btn_scan_qr(),
            Language::French => FrenchUi.btn_scan_qr(),
            Language::German => GermanUi.btn_scan_qr(),
            Language::Hungarian => HungarianUi.btn_scan_qr(),
            Language::Spanish => SpanishUi.btn_scan_qr(),
        }
    }

    fn scan_scanning(&self) -> (r: &'static str) {
        match self.lang {
            Language::English => EnglishUi.scan_scanning(),
            Language::French => FrenchUi.scan_scanning(),
            Language::German => GermanUi.scan_scanning(),
            Language::Hungarian => HungarianUi.scan_scanning(),
            Language::Spanish => SpanishUi.scan_scanning(),
        }
    }

    fn scan_success(&self, key: &str) -> (r: String) {
        match self.lang {
            Language::English => EnglishUi.scan_success(key),
            Language::French => FrenchUi.scan_success(key),
            Language::German => GermanUi.scan_success(key),
            Language::Hungarian => HungarianUi.scan_success(key),
            Language::Spanish => SpanishUi.scan_success(key),
        }
    }

    fn scan_error(&self, e: &str) -> (r: String) {
        match self.lang {
            Language::English => EnglishUi.scan_error(e),
            Language::French => FrenchUi.scan_error(e),
            Language::German => GermanUi.scan_error(e),
            Language::Hungarian => HungarianUi.scan_error(e),
            Language::Spanish => SpanishUi.scan_error(e),
        }
    }

    fn tab_log(&self) -> (r: &'static str) {
        match self.lang {
            Language::English => EnglishUi.tab_log(),
            Language::French => FrenchUi.tab_log(),
            Language::German => GermanUi.tab_log(),
            Language::Hungarian => HungarianUi.tab_log(),
            Language::Spanish => SpanishUi.tab_log(),
        }
    }

    fn log_refresh(&self) -> (r: &'static str) {
        match self.lang {
            Language::English => EnglishUi.log_refresh(),
            Language::French => FrenchUi.log_refresh(),
            Language::German => GermanUi.log_refresh(),
            Language::Hungarian => HungarianUi.log_refresh(),
            Language::Spanish => SpanishUi.log_refresh(),
        }
    }

    fn log_clear(&self) -> (r: &'static str) {
        match self.lang {
            Language::English => EnglishUi.log_clear(),
            Language::French => FrenchUi.log_clear(),
            Language::German => GermanUi.log_clear(),
            Language::Hungarian => HungarianUi.log_clear(),
            Language::Spanish => SpanishUi.log_clear(),
        }
    }

    fn log_save(&self) -> (r: &'static str) {
        match self.lang {
            Language::English => EnglishUi.log_save(),
            Language::French => FrenchUi.log_save(),
            Language::German => GermanUi.log_save(),
            Language::Hungarian => HungarianUi.log_save(),
            Language::Spanish => SpanishUi.log_save(),
        }
    }

    fn log_saving(&self) -> (r: &'static str) {
        match self.lang {
            Language::English => EnglishUi.log_saving(),
            Language::French => FrenchUi.log_saving(),
            Language::German => GermanUi.log_saving(),
            Language::Hungarian => HungarianUi.log_saving(),
            Language::Spanish => SpanishUi.log_saving(),
        }
    }

    fn log_save_ok(&self) -> (r: &'static str) {
        match self.lang {
            Language::English => EnglishUi.log_save_ok(),
            Language::French => FrenchUi.log_save_ok(),
            Language::German => GermanUi.log_save_ok(),
            Language::Hungarian => HungarianUi.log_save_ok(),
            Language::Spanish => SpanishUi.log_save_ok(),
        }
    }

    fn log_save_fail(&self, e: &str) -> (r: String) {
        match self.lang {
            Language::English => EnglishUi.log_save_fail(e),
            Language::French => FrenchUi.log_save_fail(e),
            Language::German => GermanUi.log_save_fail(e),
            Language::Hungarian => HungarianUi.log_save_fail(e),
            Language::Spanish => SpanishUi.log_save_fail(e),
        }
    }

    fn log_save_empty(&self) -> (r: &'static str) {
        match self.lang {
            Language::English => EnglishUi.log_save_empty(),
            Language::French => FrenchUi.log_save_empty(),
            Language::German => GermanUi.log_save_empty(),
            Language::Hungarian => HungarianUi.log_save_empty(),
            Language::Spanish => SpanishUi.log_save_empty(),
        }
    }

    fn btn_dump_gun_db(&self) -> (r: &'static str) {
        match self.lang {
            Language::English => EnglishUi.btn_dump_gun_db(),
            Language::French => FrenchUi.btn_dump_gun_db(),
            Language::German => GermanUi.btn_dump_gun_db(),
            Language::Hungarian => HungarianUi.btn_dump_gun_db(),
            Language::Spanish => SpanishUi.btn_dump_gun_db(),
        }
    }

    fn log_dumping(&self) -> (r: &'static str) {
        match self.lang {
            Language::English => EnglishUi.log_dumping(),
            Language::French => FrenchUi.log_dumping(),
            Language::German => GermanUi.log_dumping(),
            Language::Hungarian => HungarianUi.log_dumping(),
            Language::Spanish => SpanishUi.log_dumping(),
        }
    }

    fn log_dump_ok(&self) -> (r: &'static str) {
        match self.lang {
            Language::English => EnglishUi.log_dump_ok(),
            Language::French => FrenchUi.log_dump_ok(),
            Language::German => GermanUi.log_dump_ok(),
            Language::Hungarian => HungarianUi.log_dump_ok(),
            Language::Spanish => SpanishUi.log_dump_ok(),
        }
    }

    fn toast_update_available(&self) -> (r: &'static str) {
        match self.lang {
            Language::English => EnglishUi.toast_update_available(),
            Language::French => FrenchUi.toast_update_available(),
            Language::German => GermanUi.toast_update_available(),
            Language::Hungarian => HungarianUi.toast_update_available(),
            Language::Spanish => SpanishUi.toast_update_available(),
        }
    }

    fn btn_update_now(&self) -> (r: &'static str) {
        match self.lang {
            Language::English => EnglishUi.btn_update_now(),
            Language::French => FrenchUi.btn_update_now(),
            Language::German => GermanUi.btn_update_now(),
            Language::Hungarian => HungarianUi.btn_update_now(),
            Language::Spanish => SpanishUi.btn_update_now(),
        }
    }

    fn info_version(&self, ver: &str) -> (r: String) {
        match self.lang {
            Language::English => EnglishUi.info_version(ver),
            Language::French => FrenchUi.info_version(ver),
            Language::German => GermanUi.info_version(ver),
            Language::Hungarian => HungarianUi.info_version(ver),
            Language::Spanish => SpanishUi.info_version(ver),
        }
    }

    fn network_switch_save_prompt(&self) -> (r: &'static str) {
        match self.lang {
            Language::English => EnglishUi.network_switch_save_prompt(),
            Language::French => FrenchUi.network_switch_save_prompt(),
            Language::German => GermanUi.network_switch_save_prompt(),
            Language::Hungarian => HungarianUi.network_switch_save_prompt(),
            Language::Spanish => SpanishUi.network_switch_save_prompt(),
        }
    }

    fn btn_save_and_switch(&self) -> (r: &'static str) {
        match self.lang {
            Language::English => EnglishUi.btn_save_and_switch(),
            Language::French => FrenchUi.btn_save_and_switch(),
            Language::German => GermanUi.btn_save_and_switch(),
            Language::Hungarian => HungarianUi.btn_save_and_switch(),
            Language::Spanish => SpanishUi.btn_save_and_switch(),
        }
    }

    fn btn_switch_and_save(&self) -> (r: &'static str) {
        match self.lang {
            Language::English => EnglishUi.btn_switch_and_save(),
            Language::French => FrenchUi.btn_switch_and_save(),
            Language::German => GermanUi.btn_switch_and_save(),
            Language::Hungarian => HungarianUi.btn_switch_and_save(),
            Language::Spanish => SpanishUi.btn_switch_and_save(),
        }
    }

    fn btn_switch_without_saving(&self) -> (r: &'static str) {
        match self.lang {
            Language::English => EnglishUi.btn_switch_without_saving(),
            Language::French => FrenchUi.btn_switch_without_saving(),
            Language::German => GermanUi.btn_switch_without_saving(),
            Language::Hungarian => HungarianUi.btn_switch_without_saving(),
            Language::Spanish => SpanishUi.btn_switch_without_saving(),
        }
    }

    fn btn_cancel(&self) -> (r: &'static str) {
        match self.lang {
            Language::English => EnglishUi.btn_cancel(),
            Language::French => FrenchUi.btn_cancel(),
            Language::German => GermanUi.btn_cancel(),
            Language::Hungarian => HungarianUi.btn_cancel(),
            Language::Spanish => SpanishUi.btn_cancel(),
        }
    }

    fn btn_generate_db_secret(&self) -> (r: &'static str) {
        match self.lang {
            Language::English => EnglishUi.btn_generate_db_secret(),
            Language::French => FrenchUi.btn_generate_db_secret(),
            Language::German => GermanUi.btn_generate_db_secret(),
            Language::Hungarian => HungarianUi.btn_generate_db_secret(),
            Language::Spanish => SpanishUi.btn_generate_db_secret(),
        }
    }

    fn sea_modal_title(&self) -> (r: &'static str) {
        match self.lang {
            Language::English => EnglishUi.sea_modal_title(),
            Language::French => FrenchUi.sea_modal_title(),
            Language::German => GermanUi.sea_modal_title(),
            Language::Hungarian => HungarianUi.sea_modal_title(),
            Language::Spanish => SpanishUi.sea_modal_title(),
        }
    }

    fn sea_modal_placeholder(&self) -> (r: &'static str) {
        match self.lang {
            Language::English => EnglishUi.sea_modal_placeholder(),
            Language::French => FrenchUi.sea_modal_placeholder(),
            Language::German => GermanUi.sea_modal_placeholder(),
            Language::Hungarian => HungarianUi.sea_modal_placeholder(),
            Language::Spanish => SpanishUi.sea_modal_placeholder(),
        }
    }

    fn btn_generate_db_keys(&self) -> (r: &'static str) {
        match self.lang {
            Language::English => EnglishUi.btn_generate_db_keys(),
            Language::French => FrenchUi.btn_generate_db_keys(),
            Language::German => GermanUi.btn_generate_db_keys(),
            Language::Hungarian => HungarianUi.btn_generate_db_keys(),
            Language::Spanish => SpanishUi.btn_generate_db_keys(),
        }
    }

    fn sea_generating(&self) -> (r: &'static str) {
        match self.lang {
            Language::English => EnglishUi.sea_generating(),
            Language::French => FrenchUi.sea_generating(),
            Language::German => GermanUi.sea_generating(),
            Language::Hungarian => HungarianUi.sea_generating(),
            Language::Spanish => SpanishUi.sea_generating(),
        }
    }

    fn sea_keys_generated(&self) -> (r: &'static str) {
        match self.lang {
            Language::English => EnglishUi.sea_keys_generated(),
            Language::French => FrenchUi.sea_keys_generated(),
            Language::German => GermanUi.sea_keys_generated(),
            Language::Hungarian => HungarianUi.sea_keys_generated(),
            Language::Spanish => SpanishUi.sea_keys_generated(),
        }
    }

    fn sea_generation_error(&self, e: &str) -> (r: String) {
        match self.lang {
            Language::English => EnglishUi.sea_generation_error(e),
            Language::French => FrenchUi.sea_generation_error(e),
            Language::German => GermanUi.sea_generation_error(e),
            Language::Hungarian => HungarianUi.sea_generation_error(e),
            Language::Spanish => SpanishUi.sea_generation_error(e),
        }
    }

    fn btn_close(&self) -> (r: &'static str) {
        match self.lang {
            Language::English => EnglishUi.btn_close(),
            Language::French => FrenchUi.btn_close(),
            Language::German => GermanUi.btn_close(),
            Language::Hungarian => HungarianUi.btn_close(),
            Language::Spanish => SpanishUi.btn_close(),
        }
    }

    fn lbl_biometric(&self) -> (r: &'static str) {
        match self.lang {
            Language::English => EnglishUi.lbl_biometric(),
            Language::French => FrenchUi.lbl_biometric(),
            Language::German => GermanUi.lbl_biometric(),
            Language::Hungarian => HungarianUi.lbl_biometric(),
            Language::Spanish => SpanishUi.lbl_biometric(),
        }
    }

    fn lbl_biometric_desc(&self) -> (r: &'static str) {
        match self.lang {
            Language::English => EnglishUi.lbl_biometric_desc(),
            Language::French => FrenchUi.lbl_biometric_desc(),
            Language::German => GermanUi.lbl_biometric_desc(),
            Language::Hungarian => HungarianUi.lbl_biometric_desc(),
            Language::Spanish => SpanishUi.lbl_biometric_desc(),
        }
    }

    fn biometric_required_to_save(&self) -> (r: &'static str) {
        match self.lang {
            Language::English => EnglishUi.biometric_required_to_save(),
            Language::French => FrenchUi.biometric_required_to_save(),
            Language::German => GermanUi.biometric_required_to_save(),
            Language::Hungarian => HungarianUi.biometric_required_to_save(),
            Language::Spanish => SpanishUi.biometric_required_to_save(),
        }
    }

    fn lbl_nickname(&self) -> (r: &'static str) {
        match self.lang {
            Language::English => EnglishUi.lbl_nickname(),
            Language::French => FrenchUi.lbl_nickname(),
            Language::German => GermanUi.lbl_nickname(),
            Language::Hungarian => HungarianUi.lbl_nickname(),
            Language::Spanish => SpanishUi.lbl_nickname(),
        }
    }

    fn lbl_nickname_ph(&self) -> (r: &'static str) {
        match self.lang {
            Language::English => EnglishUi.lbl_nickname_ph(),
            Language::French => FrenchUi.lbl_nickname_ph(),
            Language::German => GermanUi.lbl_nickname_ph(),
            Language::Hungarian => HungarianUi.lbl_nickname_ph(),
            Language::Spanish => SpanishUi.lbl_nickname_ph(),
        }
    }

    fn btn_save_nickname(&self) -> (r: &'static str) {
        match self.lang {
            Language::English => EnglishUi.btn_save_nickname(),
            Language::French => FrenchUi.btn_save_nickname(),
            Language::German => GermanUi.btn_save_nickname(),
            Language::Hungarian => HungarianUi.btn_save_nickname(),
            Language::Spanish => SpanishUi.btn_save_nickname(),
        }
    }

    fn nickname_saved(&self) -> (r: &'static str) {
        match self.lang {
            Language::English => EnglishUi.nickname_saved(),
            Language::French => FrenchUi.nickname_saved(),
            Language::German => GermanUi.nickname_saved(),
            Language::Hungarian => HungarianUi.nickname_saved(),
            Language::Spanish => SpanishUi.nickname_saved(),
        }
    }

    fn nickname_save_error(&self, e: &str) -> (r: String) {
        match self.lang {
            Language::English => EnglishUi.nickname_save_error(e),
            Language::French => FrenchUi.nickname_save_error(e),
            Language::German => GermanUi.nickname_save_error(e),
            Language::Hungarian => HungarianUi.nickname_save_error(e),
            Language::Spanish => SpanishUi.nickname_save_error(e),
        }
    }

    fn lbl_parents(&self) -> (r: &'static str) {
        match self.lang {
            Language::English => EnglishUi.lbl_parents(),
            Language::French => FrenchUi.lbl_parents(),
            Language::German => GermanUi.lbl_parents(),
            Language::Hungarian => HungarianUi.lbl_parents(),
            Language::Spanish => SpanishUi.lbl_parents(),
        }
    }

    fn lbl_workers(&self) -> (r: &'static str) {
        match self.lang {
            Language::English => EnglishUi.lbl_workers(),
            Language::French => FrenchUi.lbl_workers(),
            Language::German => GermanUi.lbl_workers(),
            Language::Hungarian => HungarianUi.lbl_workers(),
            Language::Spanish => SpanishUi.lbl_workers(),
        }
    }

    fn btn_new_worker(&self) -> (r: &'static str) {
        match self.lang {
            Language::English => EnglishUi.btn_new_worker(),
            Language::French => FrenchUi.btn_new_worker(),
            Language::German => GermanUi.btn_new_worker(),
            Language::Hungarian => HungarianUi.btn_new_worker(),
            Language::Spanish => SpanishUi.btn_new_worker(),
        }
    }

    fn network_no_key(&self) -> (r: &'static str) {
        match self.lang {
            Language::English => EnglishUi.network_no_key(),
            Language::French => FrenchUi.network_no_key(),
            Language::German => GermanUi.network_no_key(),
            Language::Hungarian => HungarianUi.network_no_key(),
            Language::Spanish => SpanishUi.network_no_key(),
        }
    }

    fn network_add_worker_success(&self, key: &str) -> (r: String) {
        match self.lang {
            Language::English => EnglishUi.network_add_worker_success(key),
            Language::French => FrenchUi.network_add_worker_success(key),
            Language::German => GermanUi.network_add_worker_success(key),
            Language::Hungarian => HungarianUi.network_add_worker_success(key),
            Language::Spanish => SpanishUi.network_add_worker_success(key),
        }
    }

    fn network_add_worker_error(&self, e: &str) -> (r: String) {
        match self.lang {
            Language::English => EnglishUi.network_add_worker_error(e),
            Language::French => FrenchUi.network_add_worker_error(e),
            Language::German => GermanUi.network_add_worker_error(e),
            Language::Hungarian => HungarianUi.network_add_worker_error(e),
            Language::Spanish => SpanishUi.network_add_worker_error(e),
        }
    }

    fn btn_burn(&self) -> (r: &'static str) {
        match self.lang {
            Language::English => EnglishUi.btn_burn(),
            Language::French => FrenchUi.btn_burn(),
            Language::German => GermanUi.btn_burn(),
            Language::Hungarian => HungarianUi.btn_burn(),
            Language::Spanish => SpanishUi.btn_burn(),
        }
    }

    fn btn_mint(&self) -> (r: &'static str) {
        match self.lang {
            Language::English => EnglishUi.btn_mint(),
            Language::French => FrenchUi.btn_mint(),
            Language::German => GermanUi.btn_mint(),
            Language::Hungarian => HungarianUi.btn_mint(),
            Language::Spanish => SpanishUi.btn_mint(),
        }
    }

    fn btn_ok(&self) -> (r: &'static str) {
        match self.lang {
            Language::English => EnglishUi.btn_ok(),
            Language::French => FrenchUi.btn_ok(),
            Language::German => GermanUi.btn_ok(),
            Language::Hungarian => HungarianUi.btn_ok(),
            Language::Spanish => SpanishUi.btn_ok(),
        }
    }

    fn cyf_not_implemented(&self, fn_name: &str) -> (r: String) {
        match self.lang {
            Language::English => EnglishUi.cyf_not_implemented(fn_name),
            Language::French => FrenchUi.cyf_not_implemented(fn_name),
            Language::German => GermanUi.cyf_not_implemented(fn_name),
            Language::Hungarian => HungarianUi.cyf_not_implemented(fn_name),
            Language::Spanish => SpanishUi.cyf_not_implemented(fn_name),
        }
    }

    fn lbl_gun_address(&self) -> (r: &'static str) {
        match self.lang {
            Language::English => EnglishUi.lbl_gun_address(),
            Language::French => FrenchUi.lbl_gun_address(),
            Language::German => GermanUi.lbl_gun_address(),
            Language::Hungarian => HungarianUi.lbl_gun_address(),
            Language::Spanish => SpanishUi.lbl_gun_address(),
        }
    }

    fn lbl_gun_relay_url(&self) -> (r: &'static str) {
        match self.lang {
            Language::English => EnglishUi.lbl_gun_relay_url(),
            Language::French => FrenchUi.lbl_gun_relay_url(),
            Language::German => GermanUi.lbl_gun_relay_url(),
            Language::Hungarian => HungarianUi.lbl_gun_relay_url(),
            Language::Spanish => SpanishUi.lbl_gun_relay_url(),
        }
    }

    fn lbl_gun_relay_ph(&self) -> (r: &'static str) {
        match self.lang {
            Language::English => EnglishUi.lbl_gun_relay_ph(),
            Language::French => FrenchUi.lbl_gun_relay_ph(),
            Language::German => GermanUi.lbl_gun_relay_ph(),
            Language::Hungarian => HungarianUi.lbl_gun_relay_ph(),
            Language::Spanish => SpanishUi.lbl_gun_relay_ph(),
        }
    }

    fn btn_save_gun_relay(&self) -> (r: &'static str) {
        match self.lang {
            Language::English => EnglishUi.btn_save_gun_relay(),
            Language::French => FrenchUi.btn_save_gun_relay(),
            Language::German => GermanUi.btn_save_gun_relay(),
            Language::Hungarian => HungarianUi.btn_save_gun_relay(),
            Language::Spanish => SpanishUi.btn_save_gun_relay(),
        }
    }

    fn sss_modal_title(&self) -> (r: &'static str) {
        match self.lang {
            Language::English => EnglishUi.sss_modal_title(),
            Language::French => FrenchUi.sss_modal_title(),
            Language::German => GermanUi.sss_modal_title(),
            Language::Hungarian => HungarianUi.sss_modal_title(),
            Language::Spanish => SpanishUi.sss_modal_title(),
        }
    }

    fn sss_modal_description(&self) -> (r: &'static str) {
        match self.lang {
            Language::English => EnglishUi.sss_modal_description(),
            Language::French => FrenchUi.sss_modal_description(),
            Language::German => GermanUi.sss_modal_description(),
            Language::Hungarian => HungarianUi.sss_modal_description(),
            Language::Spanish => SpanishUi.sss_modal_description(),
        }
    }

    fn sss_share_label(&self, n: usize) -> (r: String) {
        match self.lang {
            Language::English => EnglishUi.sss_share_label(n),
            Language::French => FrenchUi.sss_share_label(n),
            Language::German => GermanUi.sss_share_label(n),
            Language::Hungarian => HungarianUi.sss_share_label(n),
            Language::Spanish => SpanishUi.sss_share_label(n),
        }
    }

    fn btn_copy_share(&self) -> (r: &'static str) {
        match self.lang {
            Language::English => EnglishUi.btn_copy_share(),
            Language::French => FrenchUi.btn_copy_share(),
            Language::German => GermanUi.btn_copy_share(),
            Language::Hungarian => HungarianUi.btn_copy_share(),
            Language::Spanish => SpanishUi.btn_copy_share(),
        }
    }

    fn sss_share_copied(&self) -> (r: &'static str) {
        match self.lang {
            Language::English => EnglishUi.sss_share_copied(),
            Language::French => FrenchUi.sss_share_copied(),
            Language::German => GermanUi.sss_share_copied(),
            Language::Hungarian => HungarianUi.sss_share_copied(),
            Language::Spanish => SpanishUi.sss_share_copied(),
        }
    }

    fn tab_zsozso(&self) -> (r: &'static str) {
        match self.lang {
            Language::English => EnglishUi.tab_zsozso(),
            Language::French => FrenchUi.tab_zsozso(),
            Language::German => GermanUi.tab_zsozso(),
            Language::Hungarian => HungarianUi.tab_zsozso(),
            Language::Spanish => SpanishUi.tab_zsozso(),
        }
    }

    fn lbl_xlm_balance(&self) -> (r: &'static str) {
        match self.lang {
            Language::English => EnglishUi.lbl_xlm_balance(),
            Language::French => FrenchUi.lbl_xlm_balance(),
            Language::German => GermanUi.lbl_xlm_balance(),
            Language::Hungarian => HungarianUi.lbl_xlm_balance(),
            Language::Spanish => SpanishUi.lbl_xlm_balance(),
        }
    }

    fn lbl_zsozso_balance(&self) -> (r: &'static str) {
        match self.lang {
            Language::English => EnglishUi.lbl_zsozso_balance(),
            Language::French => FrenchUi.lbl_zsozso_balance(),
            Language::German => GermanUi.lbl_zsozso_balance(),
            Language::Hungarian => HungarianUi.lbl_zsozso_balance(),
            Language::Spanish => SpanishUi.lbl_zsozso_balance(),
        }
    }

    fn lbl_locked_zsozso(&self) -> (r: &'static str) {
        match self.lang {
            Language::English => EnglishUi.lbl_locked_zsozso(),
            Language::French => FrenchUi.lbl_locked_zsozso(),
            Language::German => GermanUi.lbl_locked_zsozso(),
            Language::Hungarian => HungarianUi.lbl_locked_zsozso(),
            Language::Spanish => SpanishUi.lbl_locked_zsozso(),
        }
    }

    fn btn_lock(&self) -> (r: &'static str) {
        match self.lang {
            Language::English => EnglishUi.btn_lock(),
            Language::French => FrenchUi.btn_lock(),
            Language::German => GermanUi.btn_lock(),
            Language::Hungarian => HungarianUi.btn_lock(),
            Language::Spanish => SpanishUi.btn_lock(),
        }
    }

    fn btn_unlock(&self) -> (r: &'static str) {
        match self.lang {
            Language::English => EnglishUi.btn_unlock(),
            Language::French => FrenchUi.btn_unlock(),
            Language::German => GermanUi.btn_unlock(),
            Language::Hungarian => HungarianUi.btn_unlock(),
            Language::Spanish => SpanishUi.btn_unlock(),
        }
    }

    fn btn_refresh_balances(&self) -> (r: &'static str) {
        match self.lang {
            Language::English => EnglishUi.btn_refresh_balances(),
            Language::French => FrenchUi.btn_refresh_balances(),
            Language::German => GermanUi.btn_refresh_balances(),
            Language::Hungarian => HungarianUi.btn_refresh_balances(),
            Language::Spanish => SpanishUi.btn_refresh_balances(),
        }
    }

    fn zs_fetching_balances(&self) -> (r: &'static str) {
        match self.lang {
            Language::English => EnglishUi.zs_fetching_balances(),
            Language::French => FrenchUi.zs_fetching_balances(),
            Language::German => GermanUi.zs_fetching_balances(),
            Language::Hungarian => HungarianUi.zs_fetching_balances(),
            Language::Spanish => SpanishUi.zs_fetching_balances(),
        }
    }

    fn zs_mainnet_only(&self) -> (r: &'static str) {
        match self.lang {
            Language::English => EnglishUi.zs_mainnet_only(),
            Language::French => FrenchUi.zs_mainnet_only(),
            Language::German => GermanUi.zs_mainnet_only(),
            Language::Hungarian => HungarianUi.zs_mainnet_only(),
            Language::Spanish => SpanishUi.zs_mainnet_only(),
        }
    }

    fn zs_no_key(&self) -> (r: &'static str) {
        match self.lang {
            Language::English => EnglishUi.zs_no_key(),
            Language::French => FrenchUi.zs_no_key(),
            Language::German => GermanUi.zs_no_key(),
            Language::Hungarian => HungarianUi.zs_no_key(),
            Language::Spanish => SpanishUi.zs_no_key(),
        }
    }

    fn zs_locking(&self) -> (r: &'static str) {
        match self.lang {
            Language::English => EnglishUi.zs_locking(),
            Language::French => FrenchUi.zs_locking(),
            Language::German => GermanUi.zs_locking(),
            Language::Hungarian => HungarianUi.zs_locking(),
            Language::Spanish => SpanishUi.zs_locking(),
        }
    }

    fn zs_unlocking(&self) -> (r: &'static str) {
        match self.lang {
            Language::English => EnglishUi.zs_unlocking(),
            Language::French => FrenchUi.zs_unlocking(),
            Language::German => GermanUi.zs_unlocking(),
            Language::Hungarian => HungarianUi.zs_unlocking(),
            Language::Spanish => SpanishUi.zs_unlocking(),
        }
    }

    fn fmt_zs_lock_success(&self, amount: &str) -> (r: String) {
        match self.lang {
            Language::English => EnglishUi.fmt_zs_lock_success(amount),
            Language::French => FrenchUi.fmt_zs_lock_success(amount),
            Language::German => GermanUi.fmt_zs_lock_success(amount),
            Language::Hungarian => HungarianUi.fmt_zs_lock_success(amount),
            Language::Spanish => SpanishUi.fmt_zs_lock_success(amount),
        }
    }

    fn fmt_zs_unlock_success(&self, amount: &str) -> (r: String) {
        match self.lang {
            Language::English => EnglishUi.fmt_zs_unlock_success(amount),
            Language::French => FrenchUi.fmt_zs_unlock_success(amount),
            Language::German => GermanUi.fmt_zs_unlock_success(amount),
            Language::Hungarian => HungarianUi.fmt_zs_unlock_success(amount),
            Language::Spanish => SpanishUi.fmt_zs_unlock_success(amount),
        }
    }

    fn fmt_zs_lock_error(&self, err: &str) -> (r: String) {
        match self.lang {
            Language::English => EnglishUi.fmt_zs_lock_error(err),
            Language::French => FrenchUi.fmt_zs_lock_error(err),
            Language::German => GermanUi.fmt_zs_lock_error(err),
            Language::Hungarian => HungarianUi.fmt_zs_lock_error(err),
            Language::Spanish => SpanishUi.fmt_zs_lock_error(err),
        }
    }

    fn fmt_zs_unlock_error(&self, err: &str) -> (r: String) {
        match self.lang {
            Language::English => EnglishUi.fmt_zs_unlock_error(err),
            Language::French => FrenchUi.fmt_zs_unlock_error(err),
            Language::German => GermanUi.fmt_zs_unlock_error(err),
            Language::Hungarian => HungarianUi.fmt_zs_unlock_error(err),
            Language::Spanish => SpanishUi.fmt_zs_unlock_error(err),
        }
    }

    fn zs_invalid_amount(&self) -> (r: &'static str) {
        match self.lang {
            Language::English => EnglishUi.zs_invalid_amount(),
            Language::French => FrenchUi.zs_invalid_amount(),
            Language::German => GermanUi.zs_invalid_amount(),
            Language::Hungarian => HungarianUi.zs_invalid_amount(),
            Language::Spanish => SpanishUi.zs_invalid_amount(),
        }
    }

    fn lbl_amount(&self) -> (r: &'static str) {
        match self.lang {
            Language::English => EnglishUi.lbl_amount(),
            Language::French => FrenchUi.lbl_amount(),
            Language::German => GermanUi.lbl_amount(),
            Language::Hungarian => HungarianUi.lbl_amount(),
            Language::Spanish => SpanishUi.lbl_amount(),
        }
    }

    fn lbl_mainnet_account(&self) -> (r: &'static str) {
        match self.lang {
            Language::English => EnglishUi.lbl_mainnet_account(),
            Language::French => FrenchUi.lbl_mainnet_account(),
            Language::German => GermanUi.lbl_mainnet_account(),
            Language::Hungarian => HungarianUi.lbl_mainnet_account(),
            Language::Spanish => SpanishUi.lbl_mainnet_account(),
        }
    }

    fn lbl_testnet_account(&self) -> (r: &'static str) {
        match self.lang {
            Language::English => EnglishUi.lbl_testnet_account(),
            Language::French => FrenchUi.lbl_testnet_account(),
            Language::German => GermanUi.lbl_testnet_account(),
            Language::Hungarian => HungarianUi.lbl_testnet_account(),
            Language::Spanish => SpanishUi.lbl_testnet_account(),
        }
    }

    fn lbl_no_account(&self) -> (r: &'static str) {
        match self.lang {
            Language::English => EnglishUi.lbl_no_account(),
            Language::French => FrenchUi.lbl_no_account(),
            Language::German => GermanUi.lbl_no_account(),
            Language::Hungarian => HungarianUi.lbl_no_account(),
            Language::Spanish => SpanishUi.lbl_no_account(),
        }
    }

    fn tab_home(&self) -> (r: &'static str) {
        match self.lang {
            Language::English => EnglishUi.tab_home(),
            Language::French => FrenchUi.tab_home(),
            Language::German => GermanUi.tab_home(),
            Language::Hungarian => HungarianUi.tab_home(),
            Language::Spanish => SpanishUi.tab_home(),
        }
    }

    fn lbl_mainnet_keys(&self) -> (r: &'static str) {
        match self.lang {
            Language::English => EnglishUi.lbl_mainnet_keys(),
            Language::French => FrenchUi.lbl_mainnet_keys(),
            Language::German => GermanUi.lbl_mainnet_keys(),
            Language::Hungarian => HungarianUi.lbl_mainnet_keys(),
            Language::Spanish => SpanishUi.lbl_mainnet_keys(),
        }
    }

    fn lbl_testnet_keys(&self) -> (r: &'static str) {
        match self.lang {
            Language::English => EnglishUi.lbl_testnet_keys(),
            Language::French => FrenchUi.lbl_testnet_keys(),
            Language::German => GermanUi.lbl_testnet_keys(),
            Language::Hungarian => HungarianUi.lbl_testnet_keys(),
            Language::Spanish => SpanishUi.lbl_testnet_keys(),
        }
    }

    fn lbl_pin_code(&self) -> (r: &'static str) {
        match self.lang {
            Language::English => EnglishUi.lbl_pin_code(),
            Language::French => FrenchUi.lbl_pin_code(),
            Language::German => GermanUi.lbl_pin_code(),
            Language::Hungarian => HungarianUi.lbl_pin_code(),
            Language::Spanish => SpanishUi.lbl_pin_code(),
        }
    }

    fn lbl_pin_code_desc(&self) -> (r: &'static str) {
        match self.lang {
            Language::English => EnglishUi.lbl_pin_code_desc(),
            Language::French => FrenchUi.lbl_pin_code_desc(),
            Language::German => GermanUi.lbl_pin_code_desc(),
            Language::Hungarian => HungarianUi.lbl_pin_code_desc(),
            Language::Spanish => SpanishUi.lbl_pin_code_desc(),
        }
    }

    fn lbl_pin_code_ph(&self) -> (r: &'static str) {
        match self.lang {
            Language::English => EnglishUi.lbl_pin_code_ph(),
            Language::French => FrenchUi.lbl_pin_code_ph(),
            Language::German => GermanUi.lbl_pin_code_ph(),
            Language::Hungarian => HungarianUi.lbl_pin_code_ph(),
            Language::Spanish => SpanishUi.lbl_pin_code_ph(),
        }
    }

    fn btn_set_pin(&self) -> (r: &'static str) {
        match self.lang {
            Language::English => EnglishUi.btn_set_pin(),
            Language::French => FrenchUi.btn_set_pin(),
            Language::German => GermanUi.btn_set_pin(),
            Language::Hungarian => HungarianUi.btn_set_pin(),
            Language::Spanish => SpanishUi.btn_set_pin(),
        }
    }

}

/// The language whose implementation of [`UiI18n`] is registered for `lang`.
pub open spec fn implementation_language(lang: Language) -> Language {
    match lang {
        Language::English => EnglishUi.lang(),
        Language::French => FrenchUi.lang(),
        Language::German => GermanUi.lang(),
        Language::Hungarian => HungarianUi.lang(),
        Language::Spanish => SpanishUi.lang(),
    }
}

/// The interface text for `lang`: it answers, method for method, as the implementation
/// registered for `lang` (`EnglishUi`, `FrenchUi`, `GermanUi`, `HungarianUi` or
/// `SpanishUi`) does.
pub fn ui_i18n(lang: Language) -> (r: UiText)
    ensures
        r == (UiText { lang }),
        r.lang() == lang,
        r.lang() == implementation_language(lang),
{
    UiText::new(lang)
}

/// Every language is registered, and the text of `ui_i18n(lang)` is that of `lang`'s own
/// implementation: for every method and arguments the two give the same result. Every
/// method of [`UiI18n`] is specified by `ui_str`, `ui_fmt_with` or `xdr_ready_text` of
/// `lang()` and its arguments, and the two agree on `lang()`; and `lang`'s texts are its
/// own tables.
pub proof fn lemma_ui_i18n_dispatch(lang: Language)
    ensures
        implementation_language(lang) == lang,
        (UiText { lang }).lang() == implementation_language(lang),
        forall|k: UiStr| #[trigger] ui_str((UiText { lang }).lang(), k) == ui_str(implementation_language(lang), k),
        forall|k: UiFmt, v: Seq<char>| #[trigger] ui_fmt_with((UiText { lang }).lang(), k, v) == ui_fmt_with(implementation_language(lang), k, v),
        forall|net: Seq<char>, seq: int| #[trigger] xdr_ready_text((UiText { lang }).lang(), net, seq) == xdr_ready_text(implementation_language(lang), net, seq),
        forall|k: UiStr| #[trigger] ui_str(lang, k) == match lang {
            Language::English => english_str(k),
            Language::French => french_str(k),
            Language::German => german_str(k),
            Language::Hungarian => hungarian_str(k),
            Language::Spanish => spanish_str(k),
        },
        forall|k: UiFmt| #[trigger] ui_fmt(lang, k) == match lang {
            Language::English => english_fmt(k),
            Language::French => french_fmt(k),
            Language::German => german_fmt(k),
            Language::Hungarian => hungarian_fmt(k),
            Language::Spanish => spanish_fmt(k),
        },
{
}

} // verus!
