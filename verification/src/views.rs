//! What the screens show: the texts and choices that each screen derives from the
//! wallet state.

use vstd::prelude::*;
use crate::language::{Language, NetworkEnvironment};
use crate::state::{AuthState, WalletState};
use crate::tabs::Tab;
use crate::i18n::{UiI18n, UiStr, ui_str, ui_i18n};

verus! {

/// The nickname recorded for `key` among `nicks`; a later entry replaces an earlier one.
pub open spec fn nickname_of(nicks: Seq<(String, String)>, key: Seq<char>) -> Option<Seq<char>>
    decreases nicks.len(),
{
    if nicks.len() == 0 {
        None
    } else if nicks.last().0@ == key {
        Some(nicks.last().1@)
    } else {
        nickname_of(nicks.drop_last(), key)
    }
}

/// A key of more than 19 characters shortened to its first and last 8, joined by `...`.
pub open spec fn abbreviated(key: Seq<char>) -> Seq<char> {
    if key.len() > 19 {
        key.take(8) + "..."@ + key.skip(key.len() - 8)
    } else {
        key
    }
}

/// The label of the button of network node `key`: its nickname when it has a
/// non-empty one, else the key, abbreviated.
pub open spec fn node_label_text(key: Seq<char>, nicks: Seq<(String, String)>) -> Seq<char> {
    match nickname_of(nicks, key) {
        Some(nick) => if nick.len() > 0 { nick } else { abbreviated(key) },
        None => abbreviated(key),
    }
}

/// Where the last entry of `nicknames` for `key` stands, if any.
fn last_nickname_index(key: &str, nicknames: &Vec<(String, String)>) -> (r: Option<usize>)
    ensures
        match r {
            Some(j) => j < nicknames@.len() && nickname_of(nicknames@, key@) == Some(nicknames@[j as int].1@),
            None => nickname_of(nicknames@, key@) is None,
        },
{
    let mut found: Option<usize> = None;
    let mut i: usize = 0;
    while i < nicknames.len()
        invariant
            i <= nicknames@.len(),
            match found {
                Some(j) => j < i && nickname_of(nicknames@.take(i as int), key@) == Some(nicknames@[j as int].1@),
                None => nickname_of(nicknames@.take(i as int), key@) is None,
            },
        decreases nicknames@.len() - i,
    {
        assert(nicknames@.take(i + 1).drop_last() =~= nicknames@.take(i as int));
        assert(nicknames@.take(i + 1).last() == nicknames@[i as int]);
        if crate::text::str_equal(nicknames[i].0.as_str(), key) {
            found = Some(i);
        }
        i = i + 1;
    }
    assert(nicknames@.take(nicknames@.len() as int) =~= nicknames@);
    found
}

/// `key` shortened as the node buttons show it.
fn abbreviate(key: &str) -> (r: String)
    ensures
        r@ == abbreviated(key@),
{
    let n = key.unicode_len();
    if n > 19 {
        let mut r = key.substring_char(0, 8).to_owned();
        r.append("...");
        r.append(key.substring_char(n - 8, n));
        proof {
            assert(key@.subrange(0, 8) =~= key@.take(8));
            assert(key@.subrange(n - 8, n as int) =~= key@.skip(key@.len() - 8));
        }
        r
    } else {
        key.to_owned()
    }
}

/// The label of the button of network node `key`: its nickname when it has a
/// non-empty one, else the key, its middle left out when it is longer than 19
/// characters.
pub fn node_label(key: &str, nicknames: &Vec<(String, String)>) -> (r: String)
    ensures
        r@ == node_label_text(key@, nicknames@),
{
    match last_nickname_index(key, nicknames) {
        Some(j) => {
            let nick = &nicknames[j].1;
            if nick.as_str().unicode_len() > 0 {
                nick.clone()
            } else {
                abbreviate(key)
            }
        },
        None => abbreviate(key),
    }
}

/// How many ancestors the networking tab shows.
pub const SHOWN_PARENTS: usize = 6;

/// The labels of the first `limit` nodes of `keys`.
pub fn node_labels(keys: &Vec<String>, limit: usize, nicknames: &Vec<(String, String)>) -> (r: Vec<String>)
    ensures
        r@.len() == if keys@.len() < limit { keys@.len() } else { limit as nat },
        forall|i: int| 0 <= i < r@.len() ==> #[trigger] r@[i]@ == node_label_text(keys@[i]@, nicknames@),
{
    let mut r: Vec<String> = Vec::new();
    let mut i: usize = 0;
    while i < keys.len() && i < limit
        invariant
            i <= keys@.len(),
            i <= limit,
            r@.len() == i,
            forall|k: int| 0 <= k < i ==> #[trigger] r@[k]@ == node_label_text(keys@[k]@, nicknames@),
        decreases keys@.len() - i,
    {
        r.push(node_label(keys[i].as_str(), nicknames));
        i = i + 1;
    }
    r
}

/// What the networking tab shows.
pub struct NetworkingView {
    /// The ping status line; empty when there is none.
    pub ping: String,
    /// The labels of the ancestors shown.
    pub parents: Vec<String>,
    /// The labels of the workers.
    pub workers: Vec<String>,
}

/// The ping status line of `s`: its text, or nothing.
pub open spec fn ping_line(s: WalletState) -> Seq<char> {
    match s.ping_status {
        Some(t) => t@,
        None => Seq::empty(),
    }
}

/// What the networking tab shows of `s`: the ping status, the labels of the first
/// ancestors and of all the workers.
pub fn networking_view(s: &WalletState) -> (r: NetworkingView)
    ensures
        r.ping@ == ping_line(*s),
        r.parents@.len() == if s.network_parents@.len() < SHOWN_PARENTS { s.network_parents@.len() } else { SHOWN_PARENTS as nat },
        forall|i: int| 0 <= i < r.parents@.len() ==> #[trigger] r.parents@[i]@ == node_label_text(s.network_parents@[i]@, s.network_nicknames@),
        r.workers@.len() == s.network_workers@.len(),
        forall|i: int| 0 <= i < r.workers@.len() ==> #[trigger] r.workers@[i]@ == node_label_text(s.network_workers@[i]@, s.network_nicknames@),
{
    let ping = match &s.ping_status {
        Some(t) => t.clone(),
        None => String::new(),
    };
    let parents = node_labels(&s.network_parents, SHOWN_PARENTS, &s.network_nicknames);
    let workers = node_labels(&s.network_workers, s.network_workers.len(), &s.network_nicknames);
    NetworkingView { ping, parents, workers }
}

/// What the whole window shows.
pub enum Screen {
    /// Authentication failed: the message and the label of the exit button.
    Failed { message: String, exit: String },
    /// The passkey sign-in screen: its title and the label of its button, which is disabled
    /// while authentication runs.
    SignIn { title: String, button: String, busy: bool },
    /// The tabs, with `0` open.
    Main(Tab),
}

/// What the window shows in state `s`: the failure screen, the sign-in screen until the user is
/// authenticated, then the open tab.
pub fn screen(s: &WalletState) -> (r: Screen)
    ensures
        match s.auth_state {
            AuthState::Failed => r matches Screen::Failed { message, exit }
                && message@ == ui_str(s.language, UiStr::AuthFailed)
                && exit@ == ui_str(s.language, UiStr::BtnExit),
            AuthState::Authenticated => r == Screen::Main(s.active_tab),
            AuthState::Authenticating => r matches Screen::SignIn { title, button, busy }
                && title@ == ui_str(s.language, UiStr::GateTitle)
                && button@ == ui_str(s.language, UiStr::Authenticating)
                && busy,
            AuthState::Pending => r matches Screen::SignIn { title, button, busy }
                && title@ == ui_str(s.language, UiStr::GateTitle)
                && button@ == ui_str(s.language, UiStr::BtnNext)
                && !busy,
        },
{
    let i18n = ui_i18n(s.language);
    match s.auth_state {
        AuthState::Failed => Screen::Failed { message: i18n.auth_failed().to_owned(), exit: i18n.btn_exit().to_owned() },
        AuthState::Authenticated => Screen::Main(s.active_tab),
        AuthState::Authenticating => Screen::SignIn { title: i18n.gate_title().to_owned(), button: i18n.authenticating().to_owned(), busy: true },
        AuthState::Pending => Screen::SignIn { title: i18n.gate_title().to_owned(), button: i18n.btn_next().to_owned(), busy: false },
    }
}

/// The tab at place `i` of the tab bar.
pub open spec fn tab_at(i: int) -> Tab {
    if i == 0 {
        Tab::Cyf
    } else if i == 1 {
        Tab::Zsozso
    } else if i == 2 {
        Tab::Networking
    } else if i == 3 {
        Tab::Info
    } else if i == 4 {
        Tab::Settings
    } else {
        Tab::Log
    }
}

/// The label of `tab` in language `lang`.
pub open spec fn tab_label(lang: Language, tab: Tab) -> Seq<char> {
    match tab {
        Tab::Cyf => ui_str(lang, UiStr::TabCyf),
        Tab::Zsozso => ui_str(lang, UiStr::TabZsozso),
        Tab::Networking => ui_str(lang, UiStr::TabNetworking),
        Tab::Info => ui_str(lang, UiStr::TabInfo),
        Tab::Settings => ui_str(lang, UiStr::TabSettings),
        Tab::Log => ui_str(lang, UiStr::TabLog),
    }
}

/// The buttons of the tab bar, in order: each tab with its label in `lang`.
pub fn tab_bar(lang: Language) -> (r: Vec<(Tab, String)>)
    ensures
        r@.len() == 6,
        forall|i: int| 0 <= i < 6 ==> (#[trigger] r@[i]).0 == tab_at(i) && r@[i].1@ == tab_label(lang, tab_at(i)),
{
    let i18n = ui_i18n(lang);
    let mut r: Vec<(Tab, String)> = Vec::new();
    r.push((Tab::Cyf, i18n.tab_cyf().to_owned()));
    r.push((Tab::Zsozso, i18n.tab_zsozso().to_owned()));
    r.push((Tab::Networking, i18n.tab_networking().to_owned()));
    r.push((Tab::Info, i18n.tab_info().to_owned()));
    r.push((Tab::Settings, i18n.tab_settings().to_owned()));
    r.push((Tab::Log, i18n.tab_log().to_owned()));
    r
}

/// What the ZSOZSO tab shows.
pub enum ZsozsoView {
    /// On the test network: the tab serves the main network only.
    MainnetOnly(String),
    /// No key is loaded.
    NoKey(String),
    /// The balances, each a dash while unknown, and the status line, if any.
    Balances { xlm: String, zsozso: String, locked: String, status: Option<String> },
}

/// A balance as the ZSOZSO tab shows it: a dash while it is unknown.
pub open spec fn shown_balance(o: Option<String>) -> Seq<char> {
    match o {
        Some(b) => b@,
        None => "\u{2014}"@,
    }
}

fn show_balance(o: &Option<String>) -> (r: String)
    ensures
        r@ == shown_balance(*o),
{
    match o {
        Some(b) => b.clone(),
        None => "\u{2014}".to_owned(),
    }
}

/// What the ZSOZSO tab shows of `s`.
pub fn zsozso_view(s: &WalletState) -> (r: ZsozsoView)
    ensures
        s.current_network == NetworkEnvironment::Test ==> (r matches ZsozsoView::MainnetOnly(t) && t@ == ui_str(s.language, UiStr::ZsMainnetOnly)),
        s.current_network == NetworkEnvironment::Production && s.public_key is None ==> (r matches ZsozsoView::NoKey(t) && t@ == ui_str(s.language, UiStr::ZsNoKey)),
        s.current_network == NetworkEnvironment::Production && s.public_key is Some ==> (r matches ZsozsoView::Balances { xlm, zsozso, locked, status } && {
            &&& xlm@ == shown_balance(s.xlm_balance)
            &&& zsozso@ == shown_balance(s.zsozso_balance)
            &&& locked@ == shown_balance(s.locked_zsozso)
            &&& status == s.zs_status
        }),
{
    let i18n = ui_i18n(s.language);
    if let NetworkEnvironment::Test = s.current_network {
        return ZsozsoView::MainnetOnly(i18n.zs_mainnet_only().to_owned());
    }
    if s.public_key.is_none() {
        return ZsozsoView::NoKey(i18n.zs_no_key().to_owned());
    }
    ZsozsoView::Balances {
        xlm: show_balance(&s.xlm_balance),
        zsozso: show_balance(&s.zsozso_balance),
        locked: show_balance(&s.locked_zsozso),
        status: crate::text::clone_text(&s.zs_status),
    }
}

/// What the key section of one network shows on the settings tab.
pub struct KeySectionView {
    pub title: String,
    /// The public key, or a placeholder without one.
    pub address: String,
    pub secret: Option<String>,
    pub show_secret: bool,
    /// The secret being typed for import.
    pub input: String,
    /// Whether the network has a faucet (the test network does).
    pub has_faucet: bool,
}

/// What the key section of network `net` shows of `s`.
pub fn key_section_view(s: &WalletState, net: NetworkEnvironment) -> (r: KeySectionView)
    ensures
        r.has_faucet == (net == NetworkEnvironment::Test),
        net == NetworkEnvironment::Production ==> {
            &&& r.title@ == ui_str(s.language, UiStr::LblMainnetKeys)
            &&& r.address@ == match s.mainnet_public_key { Some(pk) => pk@, None => ui_str(s.language, UiStr::LblNoAccount) }
            &&& r.secret == s.mainnet_secret_key
            &&& r.show_secret == s.mainnet_show_secret
            &&& r.input == s.mainnet_input_value
        },
        net == NetworkEnvironment::Test ==> {
            &&& r.title@ == ui_str(s.language, UiStr::LblTestnetKeys)
            &&& r.address@ == match s.testnet_public_key { Some(pk) => pk@, None => ui_str(s.language, UiStr::LblNoAccount) }
            &&& r.secret == s.testnet_secret_key
            &&& r.show_secret == s.testnet_show_secret
            &&& r.input == s.testnet_input_value
        },
{
    let i18n = ui_i18n(s.language);
    let (title, pk, secret, show_secret, input, has_faucet) = match net {
        NetworkEnvironment::Production => (i18n.lbl_mainnet_keys(), &s.mainnet_public_key, &s.mainnet_secret_key, s.mainnet_show_secret, &s.mainnet_input_value, false),
        NetworkEnvironment::Test => (i18n.lbl_testnet_keys(), &s.testnet_public_key, &s.testnet_secret_key, s.testnet_show_secret, &s.testnet_input_value, true),
    };
    let address = match pk {
        Some(k) => k.clone(),
        None => i18n.lbl_no_account().to_owned(),
    };
    KeySectionView {
        title: title.to_owned(),
        address,
        secret: crate::text::clone_text(secret),
        show_secret,
        input: input.clone(),
        has_faucet,
    }
}

/// The version line of the information tab.
pub fn version_line(version: &str) -> (r: String)
    ensures
        r@ == "Version: "@ + version@,
{
    crate::text::concat("Version: ", version)
}

/// The version that the service worker reported, when it reported a non-empty one.
pub fn reported_version(reported: String) -> (r: Option<String>)
    ensures
        reported@.len() == 0 ==> r is None,
        reported@.len() > 0 ==> r == Some(reported),
{
    if reported.as_str().unicode_len() == 0 {
        None
    } else {
        Some(reported)
    }
}

/// Whether the page is served from this machine (`localhost`, `127.0.0.1` or `::1`),
/// given its host name, if the browser gives one.
pub fn is_localhost(hostname: Option<&str>) -> (r: bool)
    ensures
        r == match hostname {
            Some(h) => h@ == "localhost"@ || h@ == "127.0.0.1"@ || h@ == "::1"@,
            None => false,
        },
{
    match hostname {
        Some(h) => crate::text::str_equal(h, "localhost") || crate::text::str_equal(h, "127.0.0.1") || crate::text::str_equal(h, "::1"),
        None => false,
    }
}

} // verus!
