use zsozso::browser::{
    dump_outcome, dump_save_status, gun_dump_script, js_escape, log_save_status, qr_image,
    save_file_script, DumpOutcome,
};
use zsozso::controller::AppController;
use zsozso::horizon::{account_url_of, balances_from_document, select_balances, BalanceEntry};
use zsozso::language::{Language, NetworkEnvironment};
use zsozso::state::{AuthState, WalletState};
use zsozso::tabs::Tab;
use zsozso::views::{
    is_localhost, key_section_view, networking_view, node_label, reported_version, screen,
    tab_bar, version_line, zsozso_view, Screen, ZsozsoView,
};

#[test]
fn short_keys_and_nicknames_label_nodes() {
    let nicks = vec![
        ("GAAA".to_string(), "alice".to_string()),
        ("GBBB".to_string(), String::new()),
        ("GAAA".to_string(), "alicia".to_string()),
    ];
    assert_eq!(node_label("GAAA", &nicks), "alicia");
    assert_eq!(node_label("GBBB", &nicks), "GBBB");
    assert_eq!(node_label("GCCC", &nicks), "GCCC");
    assert_eq!(node_label("0123456789012345678", &vec![]), "0123456789012345678");
    assert_eq!(node_label("01234567890123456789", &vec![]), "01234567...23456789");
    assert_eq!(
        node_label("GDKIJJIKXLOM2NRMPNQZUUYK24ZPVFC6426GZAEP3KUK6KEJLACCWNMX", &vec![]),
        "GDKIJJIK...LACCWNMX"
    );
}

#[test]
fn networking_view_shows_first_six_parents() {
    let mut s = WalletState::new(true);
    s.network_parents = (0..8).map(|i| format!("GP{}", i)).collect();
    s.network_workers = vec!["GW".to_string()];
    s.network_nicknames = vec![("GW".to_string(), "w".to_string())];
    s.ping_status = Some("pong".to_string());
    let v = networking_view(&s);
    assert_eq!(v.parents, (0..6).map(|i| format!("GP{}", i)).collect::<Vec<_>>());
    assert_eq!(v.workers, vec!["w".to_string()]);
    assert_eq!(v.ping, "pong");
    s.ping_status = None;
    assert_eq!(networking_view(&s).ping, "");
}

#[test]
fn window_follows_sign_in() {
    let mut s = WalletState::new(true);
    match screen(&s) {
        Screen::SignIn { title, button, busy } => {
            assert_eq!(title, "Welcome to Zsozso");
            assert_eq!(button, "Next");
            assert!(!busy);
        }
        _ => panic!("expected the sign-in screen"),
    }
    s.auth_state = AuthState::Authenticating;
    assert!(matches!(screen(&s), Screen::SignIn { busy: true, ref button, .. } if button == "Authenticating..."));
    s.auth_state = AuthState::Failed;
    assert!(matches!(screen(&s), Screen::Failed { ref message, .. } if message == "Authentication failed"));
    s.auth_state = AuthState::Authenticated;
    s.active_tab = Tab::Info;
    assert!(matches!(screen(&s), Screen::Main(Tab::Info)));
}

#[test]
fn tab_bar_lists_every_tab() {
    let bar = tab_bar(Language::Hungarian);
    let tabs: Vec<Tab> = bar.iter().map(|(t, _)| *t).collect();
    assert_eq!(tabs, vec![Tab::Cyf, Tab::Zsozso, Tab::Networking, Tab::Info, Tab::Settings, Tab::Log]);
    assert_eq!(bar[0].1, "CYF");
    assert_eq!(bar[2].1, "Hálózat");
}

#[test]
fn zsozso_tab() {
    let mut c = AppController::new(WalletState::new(true));
    c.toggle_network();
    assert!(matches!(zsozso_view(&c.s), ZsozsoView::MainnetOnly(ref t) if t == "ZSOZSO is only available on Mainnet. Switch to Mainnet in Settings."));
    c.toggle_network();
    assert!(matches!(zsozso_view(&c.s), ZsozsoView::NoKey(ref t) if t == "Load a key first in Settings."));
    c.generate_key(("GPUB".to_string(), "SSEC".to_string()));
    c.s.xlm_balance = Some("12.5000000".to_string());
    match zsozso_view(&c.s) {
        ZsozsoView::Balances { xlm, zsozso, locked, status } => {
            assert_eq!(xlm, "12.5000000");
            assert_eq!(zsozso, "\u{2014}");
            assert_eq!(locked, "\u{2014}");
            assert!(status.is_none());
        }
        _ => panic!("expected balances"),
    }
}

#[test]
fn key_sections() {
    let mut s = WalletState::new(true);
    s.testnet_public_key = Some("GTEST".to_string());
    s.testnet_secret_key = Some("STEST".to_string());
    let t = key_section_view(&s, NetworkEnvironment::Test);
    assert_eq!(t.title, "Testnet Account");
    assert_eq!(t.address, "GTEST");
    assert_eq!(t.secret.as_deref(), Some("STEST"));
    assert!(t.has_faucet);
    let m = key_section_view(&s, NetworkEnvironment::Production);
    assert_eq!(m.title, "Mainnet Account");
    assert_eq!(m.address, "No account");
    assert!(m.secret.is_none());
    assert!(!m.has_faucet);
}

#[test]
fn localhost_and_version() {
    assert!(is_localhost(Some("localhost")));
    assert!(is_localhost(Some("127.0.0.1")));
    assert!(is_localhost(Some("::1")));
    assert!(!is_localhost(Some("example.com")));
    assert!(!is_localhost(Some("localhost.example.com")));
    assert!(!is_localhost(None));
    assert_eq!(version_line("zsozso-v2"), "Version: zsozso-v2");
    assert_eq!(reported_version(String::new()), None);
    assert_eq!(reported_version("v3".to_string()), Some("v3".to_string()));
}

#[test]
fn escaping_for_single_quoted_scripts() {
    assert_eq!(js_escape("plain"), "plain");
    assert_eq!(js_escape("it's"), "it\\'s");
    assert_eq!(js_escape("a\\b"), "a\\\\b");
    assert_eq!(js_escape("\\'"), "\\\\\\'");
    let original = "{\"pub\":\"x'y\\\\z\"}";
    assert_eq!(js_escape(original), original.replace('\\', "\\\\").replace('\'', "\\'"));
}

#[test]
fn dump_scripts() {
    assert_eq!(gun_dump_script(None), "window.__gun_bridge && window.__gun_bridge.dump(null)");
    assert_eq!(
        gun_dump_script(Some("{\"k\":\"it's\"}")),
        "window.__gun_bridge && window.__gun_bridge.dump('{\"k\":\"it\\'s\"}')"
    );
}

#[test]
fn save_file_script_quotes_values_as_json() {
    let script = save_file_script("line1\n\"q\"\\", "dump.json");
    assert!(script.starts_with("(function() {\n            try {\n                var blob = new Blob([\"line1\\n\\\"q\\\"\\\\\"], {"));
    assert!(script.contains("a.download = \"dump.json\";"));
    assert!(script.ends_with("        })()"));
    let control = save_file_script("\u{1}\t", "f");
    assert!(control.contains("[\"\\u0001\\t\"]"));
}

#[test]
fn log_statuses() {
    assert_eq!(log_save_status(Language::English, "OK"), "\u{2705} Log saved");
    assert_eq!(log_save_status(Language::English, "EMPTY"), "\u{26A0}\u{FE0F} Log is empty");
    assert_eq!(log_save_status(Language::English, "ERR:eval"), "\u{274C} ERR:eval");
    assert_eq!(log_save_status(Language::Hungarian, "OK"), "\u{2705} Napló mentve");
    assert_eq!(dump_save_status(Language::English, "OK"), "\u{2705} GUN DB dump saved");
    assert_eq!(dump_save_status(Language::English, "ERR:x"), "\u{274C} ERR:x");
    assert!(matches!(dump_outcome("ERR:not_a_promise"), DumpOutcome::Failed(ref l) if l == "\u{274C} ERR:not_a_promise"));
    match dump_outcome("{\"a\":1}") {
        DumpOutcome::Save(script) => {
            assert!(script.contains("new Blob([\"{\\\"a\\\":1}\"]"));
            assert!(script.contains("a.download = \"zsozso-gundb-dump.json\";"));
        }
        _ => panic!("expected a save"),
    }
}

#[test]
fn qr_images() {
    let svg = qr_image("GDKIJJIKXLOM2NRMPNQZUUYK24ZPVFC6426GZAEP3KUK6KEJLACCWNMX");
    assert!(svg.starts_with("<?xml version=\"1.0\" standalone=\"yes\"?><svg xmlns=\"http://www.w3.org/2000/svg\""));
    assert!(svg.ends_with("\"/></svg>"));
    assert_ne!(svg, "GDKIJJIKXLOM2NRMPNQZUUYK24ZPVFC6426GZAEP3KUK6KEJLACCWNMX");
    let too_long = "x".repeat(5000);
    assert_eq!(qr_image(too_long.as_str()), "");
}

#[test]
fn horizon_addresses() {
    assert_eq!(account_url_of(NetworkEnvironment::Production, "GABC"), "https://horizon.stellar.org/accounts/GABC");
    assert_eq!(account_url_of(NetworkEnvironment::Test, "GABC"), "https://horizon-testnet.stellar.org/accounts/GABC");
}

#[test]
fn horizon_balances() {
    let body = r#"{"id":"G","balances":[
        {"balance":"5.0000000","asset_type":"credit_alphanum12","asset_code":"ZSOZSO","asset_issuer":"GI"},
        {"balance":"1.0000000","asset_type":"credit_alphanum4","asset_code":"USDC"},
        {"balance":"100.5000000","asset_type":"native"}
    ]}"#;
    let (xlm, zsozso) = balances_from_document(body).unwrap();
    assert_eq!(xlm.as_deref(), Some("100.5000000"));
    assert_eq!(zsozso.as_deref(), Some("5.0000000"));
    assert!(balances_from_document("not json").is_none());
    assert!(balances_from_document("{\"balances\": 3}").is_none());
    assert_eq!(balances_from_document("{\"balances\": []}"), Some((None, None)));
}

#[test]
fn native_entry_is_never_zsozso() {
    let entries = vec![
        BalanceEntry { asset_type: Some("native".to_string()), asset_code: Some("ZSOZSO".to_string()), balance: Some("1".to_string()) },
        BalanceEntry { asset_type: None, asset_code: Some("ZSOZSO".to_string()), balance: Some("2".to_string()) },
    ];
    let (xlm, zsozso) = select_balances(&entries);
    assert_eq!(xlm.as_deref(), Some("1"));
    assert_eq!(zsozso.as_deref(), Some("2"));
}

#[test]
fn fetch_balances_round() {
    let mut c = AppController::new(WalletState::new(true));
    assert!(c.fetch_balances_action().is_none());
    assert_eq!(c.s.zs_status.as_deref(), Some("Load a key first in Settings."));
    c.generate_key(("GPUB".to_string(), "SSEC".to_string()));
    let req = c.fetch_balances_action().unwrap();
    assert_eq!(req.url, "https://horizon.stellar.org/accounts/GPUB");
    assert_eq!(c.s.zs_status.as_deref(), Some("\u{1F504} Fetching balances..."));
    let body = r#"{"balances":[{"balance":"7","asset_type":"native"},{"balance":"3","asset_type":"credit_alphanum12","asset_code":"ZSOZSO"}]}"#;
    let line = c.finish_fetch_balances(req, Ok(Some(body.to_string())));
    assert!(line.is_none());
    assert_eq!(c.s.xlm_balance.as_deref(), Some("7"));
    assert_eq!(c.s.zsozso_balance.as_deref(), Some("3"));
    assert!(c.s.zs_status.is_none());

    let req = c.fetch_balances_action().unwrap();
    let line = c.finish_fetch_balances(req, Err("offline".to_string()));
    assert_eq!(line.as_deref(), Some("[fetch_balances] Error: offline"));
    assert_eq!(c.s.xlm_balance.as_deref(), Some("7"));
    assert!(c.s.zs_status.is_none());
}

#[test]
fn testnet_balances_leave_zsozso_alone() {
    let mut c = AppController::new(WalletState::new(true));
    c.generate_key(("GPUB".to_string(), "SSEC".to_string()));
    c.s.zsozso_balance = Some("9".to_string());
    c.s.secret_key_hidden = None;
    c.toggle_network();
    let req = c.fetch_balances_action().unwrap();
    assert_eq!(req.url, "https://horizon-testnet.stellar.org/accounts/GPUB");
    let body = r#"{"balances":[{"balance":"2","asset_type":"native"},{"balance":"3","asset_type":"x","asset_code":"ZSOZSO"}]}"#;
    c.finish_fetch_balances(req, Ok(Some(body.to_string())));
    assert_eq!(c.s.xlm_balance.as_deref(), Some("2"));
    assert_eq!(c.s.zsozso_balance.as_deref(), Some("9"));
}

/// Reads a single-quoted script string body up to its closing quote, as the browser
/// does for the escapes `\\` and `\'`.
fn read_quoted(t: &str) -> Option<(String, String)> {
    let mut out = String::new();
    let mut chars = t.chars();
    while let Some(c) = chars.next() {
        match c {
            '\'' => return Some((out, chars.collect())),
            '\\' => match chars.next() {
                Some(e @ ('\\' | '\'')) => out.push(e),
                _ => return None,
            },
            '\n' | '\r' => return None,
            other => out.push(other),
        }
    }
    None
}

#[test]
fn escaped_text_reads_back() {
    for s in ["", "plain", "it's", "a\\b", "\\'\\'", "{\"pub\":\"x'y\",\"priv\":\"\\\\\"}", "ünïcödé ✓"] {
        let script = format!("{}')", js_escape(s));
        assert_eq!(read_quoted(&script), Some((s.to_string(), ")".to_string())));
    }
}
