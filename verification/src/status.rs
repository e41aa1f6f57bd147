//! Transaction status shown in the settings tab.

use vstd::prelude::*;
use crate::i18n::{UiI18n, UiStr, UiFmt, ui_str, ui_fmt_with, xdr_ready_text};

verus! {

/// Where a faucet call, a transaction build or a submission stands.
pub enum TxStatus {
    Waiting,
    Submitting,
    CallingFaucet,
    FetchingSequence,
    NoKey,
    NoXdr,
    XdrReady { net: String, seq: i64 },
    Success(String),
    Error(String),
    FaucetSuccess(String),
}

/// The prefix of a faucet success message.
pub open spec fn faucet_success_prefix() -> Seq<char> {
    "\u{2705} "@
}

/// The text that describes `status` in language `lang`.
pub open spec fn status_message(status: TxStatus, lang: crate::language::Language) -> Seq<char> {
    match status {
        TxStatus::Waiting => ui_str(lang, UiStr::Waiting),
        TxStatus::Submitting => ui_str(lang, UiStr::Submitting),
        TxStatus::CallingFaucet => ui_str(lang, UiStr::CallingFaucet),
        TxStatus::FetchingSequence => ui_str(lang, UiStr::FetchingSequence),
        TxStatus::NoKey => ui_str(lang, UiStr::NoLoadedKey),
        TxStatus::NoXdr => ui_str(lang, UiStr::ErrNoGeneratedXdr),
        TxStatus::XdrReady { net, seq } => xdr_ready_text(lang, net@, seq as int),
        TxStatus::Success(msg) => ui_fmt_with(lang, UiFmt::FmtSuccess, msg@),
        TxStatus::Error(e) => ui_fmt_with(lang, UiFmt::FmtError, e@),
        TxStatus::FaucetSuccess(msg) => faucet_success_prefix() + msg@,
    }
}

/// In every language an error status shows a cross and then the error message itself,
/// unchanged.
pub proof fn lemma_error_status_shows_message(lang: crate::language::Language, e: String)
    ensures
        status_message(TxStatus::Error(e), lang) == "\u{274C} "@ + e@,
{
    assert(ui_fmt_with(lang, UiFmt::FmtError, e@) =~= "\u{274C} "@ + e@);
}

/// The text that describes `status` in the language of `i18n`.
pub fn status_text<I: UiI18n + ?Sized>(status: &TxStatus, i18n: &I) -> (r: String)
    ensures
        r@ == status_message(*status, i18n.lang()),
{
    match status {
        TxStatus::Waiting => i18n.waiting().to_owned(),
        TxStatus::Submitting => i18n.submitting().to_owned(),
        TxStatus::CallingFaucet => i18n.calling_faucet().to_owned(),
        TxStatus::FetchingSequence => i18n.fetching_sequence().to_owned(),
        TxStatus::NoKey => i18n.no_loaded_key().to_owned(),
        TxStatus::NoXdr => i18n.err_no_generated_xdr().to_owned(),
        TxStatus::XdrReady { net, seq } => i18n.fmt_xdr_ready(net.as_str(), *seq),
        TxStatus::Success(msg) => i18n.fmt_success(msg.as_str()),
        TxStatus::Error(e) => i18n.fmt_error(e.as_str()),
        TxStatus::FaucetSuccess(msg) => {
            let mut r = "\u{2705} ".to_owned();
            r.append(msg.as_str());
            r
        }
    }
}

} // verus!
