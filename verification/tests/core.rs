use zsozso::actions::{
    activate_test_account, faucet_outcome, fetch_and_generate_xdr, format_stored_secret,
    import_keypair, new_store, new_store_for_network, read_stored_secret, submission_outcome,
    submit_transaction, xdr_outcome,
};
use zsozso::i18n::{ui_i18n, EnglishUi, FrenchUi, GermanUi, HungarianUi, SpanishUi, UiI18n};
use zsozso::language::{language_code, language_from_code, Language, NetworkEnvironment};
use zsozso::status::{status_text, TxStatus};
use zsozso::text::{
    decimal_i64, decimal_u64, decimal_usize, parse_u64_str, strip_prefix_str, trim_str,
};

const LANGUAGES: [Language; 5] = [
    Language::English,
    Language::French,
    Language::German,
    Language::Hungarian,
    Language::Spanish,
];

#[test]
fn language_code_leads_back_to_language() {
    for lang in LANGUAGES {
        assert_eq!(language_from_code(language_code(lang)), lang);
    }
    assert_eq!(language_code(Language::Hungarian), "hu");
    assert_eq!(language_code(Language::Spanish), "es");
}

#[test]
fn unknown_language_code_chooses_english() {
    assert_eq!(language_from_code("xx"), Language::English);
    assert_eq!(language_from_code(""), Language::English);
    assert_eq!(language_from_code("HU"), Language::English);
    assert_eq!(Language::default(), Language::English);
}

#[test]
fn switching_network_twice_returns() {
    assert_eq!(NetworkEnvironment::Production.other(), NetworkEnvironment::Test);
    assert_eq!(NetworkEnvironment::Test.other(), NetworkEnvironment::Production);
    assert_eq!(NetworkEnvironment::Test.other().other(), NetworkEnvironment::Test);
}

#[test]
fn decimal_notation() {
    assert_eq!(decimal_u64(0), "0");
    assert_eq!(decimal_u64(1234567890), "1234567890");
    assert_eq!(decimal_u64(u64::MAX), "18446744073709551615");
    assert_eq!(decimal_usize(56), "56");
    assert_eq!(decimal_i64(-42), "-42");
    assert_eq!(decimal_i64(i64::MIN), "-9223372036854775808");
    assert_eq!(decimal_i64(7), "7");
}

#[test]
fn parse_reads_what_decimal_writes() {
    for n in [0u64, 1, 9, 10, 25, 1000, 987654321, u64::MAX] {
        assert_eq!(parse_u64_str(decimal_u64(n).as_str()), Some(n));
    }
}

#[test]
fn parse_u64_cases() {
    assert_eq!(parse_u64_str("+12"), Some(12));
    assert_eq!(parse_u64_str("007"), Some(7));
    assert_eq!(parse_u64_str(""), None);
    assert_eq!(parse_u64_str("+"), None);
    assert_eq!(parse_u64_str("-1"), None);
    assert_eq!(parse_u64_str("1a"), None);
    assert_eq!(parse_u64_str(" 1"), None);
    assert_eq!(parse_u64_str("18446744073709551616"), None);
    for s in ["+12", "007", "", "+", "-1", "1a", "18446744073709551616", "42"] {
        assert_eq!(parse_u64_str(s), s.parse::<u64>().ok());
    }
}

#[test]
fn trim_and_prefix() {
    assert_eq!(trim_str("  a b \t\n"), "a b");
    assert_eq!(trim_str("\u{3000}x\u{a0}"), "x");
    assert_eq!(trim_str("   "), "");
    for s in ["  a b \t\n", "\u{3000}x\u{a0}", "   ", "plain"] {
        assert_eq!(trim_str(s), s.trim());
    }
    assert_eq!(strip_prefix_str("tn:SABC", "tn:"), Some("SABC"));
    assert_eq!(strip_prefix_str("SABC", "tn:"), None);
    assert_eq!(strip_prefix_str("tn", "tn:"), None);
}

#[test]
fn stored_secret_roundtrip() {
    assert_eq!(format_stored_secret(NetworkEnvironment::Test, "SABC"), "tn:SABC");
    assert_eq!(format_stored_secret(NetworkEnvironment::Production, "SABC"), "mn:SABC");
    for net in [NetworkEnvironment::Production, NetworkEnvironment::Test] {
        for fallback in [NetworkEnvironment::Production, NetworkEnvironment::Test] {
            let stored = format_stored_secret(net, "SXYZ");
            let (read_net, secret) = read_stored_secret(stored.as_str(), fallback);
            assert_eq!(read_net, net);
            assert_eq!(secret, "SXYZ");
        }
    }
}

#[test]
fn unprefixed_secret_belongs_to_fallback() {
    let (net, secret) = read_stored_secret("SLEGACY", NetworkEnvironment::Test);
    assert_eq!(net, NetworkEnvironment::Test);
    assert_eq!(secret, "SLEGACY");
    let (net, secret) = read_stored_secret("mn:", NetworkEnvironment::Test);
    assert_eq!(net, NetworkEnvironment::Production);
    assert_eq!(secret, "");
}

#[test]
fn stores_of_the_wallet() {
    let s = new_store(Language::German);
    assert_eq!((s.service, s.account, s.language), ("zsozso", "default_account", Language::German));
    let m = new_store_for_network(Language::English, NetworkEnvironment::Production);
    assert_eq!(m.account, "mainnet_account");
    let t = new_store_for_network(Language::English, NetworkEnvironment::Test);
    assert_eq!(t.account, "testnet_account");
    assert_eq!(t.service, "zsozso");
}

#[test]
fn submit_refuses_empty_envelope() {
    assert!(matches!(
        submit_transaction(String::new(), NetworkEnvironment::Test, Language::English),
        Err(TxStatus::NoXdr)
    ));
    let req = submit_transaction("AAAA".to_string(), NetworkEnvironment::Test, Language::French).ok().unwrap();
    assert_eq!(req.xdr, "AAAA");
    assert_eq!(req.network, NetworkEnvironment::Test);
    assert_eq!(req.language, Language::French);
}

#[test]
fn faucet_needs_public_key() {
    assert!(activate_test_account(None, NetworkEnvironment::Test, Language::English).is_none());
    let req = activate_test_account(Some("GABC".to_string()), NetworkEnvironment::Test, Language::English).unwrap();
    assert_eq!(req.public_key, "GABC");
    assert_eq!(req.network, NetworkEnvironment::Test);
}

#[test]
fn envelope_build_needs_secret() {
    assert!(matches!(
        fetch_and_generate_xdr(None, NetworkEnvironment::Test, Language::English),
        Err(TxStatus::NoKey)
    ));
    let req = fetch_and_generate_xdr(Some("SABC".to_string()), NetworkEnvironment::Test, Language::English).ok().unwrap();
    assert_eq!(req.secret, "SABC");
}

#[test]
fn import_pairs_derived_key_with_input() {
    assert_eq!(import_keypair("SABC".to_string(), Some("GABC".to_string())), Some(("GABC".to_string(), "SABC".to_string())));
    assert_eq!(import_keypair("bad".to_string(), None), None);
}

#[test]
fn ledger_answers_become_statuses() {
    assert!(matches!(submission_outcome(Ok("hash".to_string())), TxStatus::Success(m) if m == "hash"));
    assert!(matches!(submission_outcome(Err("bad".to_string())), TxStatus::Error(e) if e == "bad"));
    assert!(matches!(faucet_outcome(Ok("funded".to_string())), TxStatus::FaucetSuccess(m) if m == "funded"));
    assert!(matches!(faucet_outcome(Err("down".to_string())), TxStatus::Error(e) if e == "down"));
    match xdr_outcome(Ok(("XDR".to_string(), 77)), "Testnet".to_string()) {
        Ok((xdr, TxStatus::XdrReady { net, seq })) => {
            assert_eq!(xdr, "XDR");
            assert_eq!(net, "Testnet");
            assert_eq!(seq, 77);
        }
        _ => panic!("expected an envelope"),
    }
    assert!(matches!(xdr_outcome(Err("no account".to_string()), "Testnet".to_string()), Err(TxStatus::Error(e)) if e == "no account"));
}

#[test]
fn status_texts_in_english() {
    let en = ui_i18n(Language::English);
    assert_eq!(status_text(&TxStatus::Waiting, &en), "Waiting...");
    assert_eq!(status_text(&TxStatus::Submitting, &en), "Submitting...");
    assert_eq!(status_text(&TxStatus::CallingFaucet, &en), "🚀 Calling faucet...");
    assert_eq!(status_text(&TxStatus::FetchingSequence, &en), "🔍 Fetching sequence number...");
    assert_eq!(status_text(&TxStatus::NoKey, &en), "⚠️ No loaded key!");
    assert_eq!(status_text(&TxStatus::NoXdr, &en), "Error: No generated XDR!");
    assert_eq!(
        status_text(&TxStatus::XdrReady { net: "Testnet".to_string(), seq: -5 }, &en),
        "✅ XDR Ready! [Testnet] (Seq: -5)"
    );
    assert_eq!(status_text(&TxStatus::Success("tx1".to_string()), &en), "✅ SUCCESS! tx1");
    assert_eq!(status_text(&TxStatus::Error("boom".to_string()), &en), "❌ boom");
    assert_eq!(status_text(&TxStatus::FaucetSuccess("ok".to_string()), &en), "✅ ok");
}

#[test]
fn status_texts_in_hungarian() {
    let hu = ui_i18n(Language::Hungarian);
    assert_eq!(status_text(&TxStatus::Waiting, &hu), "Várakozás...");
    assert_eq!(status_text(&TxStatus::Success("x".to_string()), &hu), "✅ SIKER! x");
    assert_eq!(
        status_text(&TxStatus::XdrReady { net: "Mainnet".to_string(), seq: 12 }, &hu),
        "✅ XDR Kész! [Mainnet] (Seq: 12)"
    );
}

#[test]
fn error_status_shows_message_in_every_language() {
    for lang in LANGUAGES {
        let i18n = ui_i18n(lang);
        assert_eq!(i18n.fmt_error("disk full"), "❌ disk full");
        assert!(status_text(&TxStatus::Error("disk full".to_string()), &i18n).ends_with("disk full"));
    }
}

#[test]
fn interface_texts_follow_language() {
    assert_eq!(ui_i18n(Language::English).btn_next(), "Next");
    assert_eq!(ui_i18n(Language::Hungarian).btn_next(), "Tovább");
    assert_eq!(ui_i18n(Language::English).gate_title(), "Welcome to Zsozso");
    assert_eq!(ui_i18n(Language::Hungarian).key_loaded_len(56), "📥 Kulcs betöltve, hossza: 56");
    assert_eq!(ui_i18n(Language::English).key_loaded_len(56), "📥 Key loaded, length: 56");
    assert_eq!(ui_i18n(Language::English).cyf_not_implemented("burn"), "The burn function is not yet implemented.");
    assert_eq!(ui_i18n(Language::English).fmt_zs_lock_success("25"), "\u{2705} Locked 25 ZSOZSO");
    assert_eq!(ui_i18n(Language::Hungarian).tab_networking(), "Hálózat");
    for lang in LANGUAGES {
        assert_eq!(ui_i18n(lang).lang, lang);
        assert!(!ui_i18n(lang).btn_next().is_empty());
    }
}

#[test]
fn every_language_answers_as_its_own_implementation() {
    fn same<A: UiI18n, B: UiI18n>(a: &A, b: &B) {
        assert_eq!(a.btn_next(), b.btn_next());
        assert_eq!(a.tab_networking(), b.tab_networking());
        assert_eq!(a.zs_no_key(), b.zs_no_key());
        assert_eq!(a.fmt_error("e"), b.fmt_error("e"));
        assert_eq!(a.key_loaded_len(7), b.key_loaded_len(7));
        assert_eq!(a.fmt_xdr_ready("Testnet", 3), b.fmt_xdr_ready("Testnet", 3));
        assert_eq!(a.sss_share_label(2), b.sss_share_label(2));
        assert_eq!(a.cyf_not_implemented("mint"), b.cyf_not_implemented("mint"));
    }
    same(&ui_i18n(Language::English), &EnglishUi);
    same(&ui_i18n(Language::French), &FrenchUi);
    same(&ui_i18n(Language::German), &GermanUi);
    same(&ui_i18n(Language::Hungarian), &HungarianUi);
    same(&ui_i18n(Language::Spanish), &SpanishUi);
}
