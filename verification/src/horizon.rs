//! Account balances as Horizon reports them.

use vstd::prelude::*;
use crate::language::{Language, NetworkEnvironment};
use crate::text::{str_equal, concat, clone_text, text_is};
use crate::state::WalletState;
use crate::controller::AppController;
use crate::i18n::{UiI18n, UiStr, ui_str, ui_i18n};

verus! {

/// One entry of the `balances` list of a Horizon account: its `asset_type`,
/// `asset_code` and `balance` fields, where they are strings.
pub struct BalanceEntry {
    pub asset_type: Option<String>,
    pub asset_code: Option<String>,
    pub balance: Option<String>,
}

/// The text of `o`, if any.
pub open spec fn opt_text(o: Option<String>) -> Option<Seq<char>> {
    match o {
        Some(s) => Some(s@),
        None => None,
    }
}

/// The fields of `e` as text.
pub open spec fn entry_fields(e: BalanceEntry) -> (Option<Seq<char>>, Option<Seq<char>>, Option<Seq<char>>) {
    (opt_text(e.asset_type), opt_text(e.asset_code), opt_text(e.balance))
}

/// The balance entries (asset type, asset code, balance) that the JSON document `body`
/// lists under `balances`, when `body` is JSON and `balances` is an array.
pub uninterp spec fn horizon_balance_entries(body: Seq<char>) -> Option<
    Seq<(Option<Seq<char>>, Option<Seq<char>>, Option<Seq<char>>)>,
>;

/// Reads the `balances` array of the Horizon account document `body` with `serde_json`
/// (`from_str`, indexing, `as_array`, `as_str`). The contract names the result; it
/// claims only that equal documents give equal entries.
#[verifier::external_body]
fn parse_balance_entries(body: &str) -> (r: Option<Vec<BalanceEntry>>)
    ensures
        horizon_balance_entries(body@) == match r {
            Some(v) => Some(v@.map_values(|e: BalanceEntry| entry_fields(e))),
            None => None,
        },
{
    let json: serde_json::Value = serde_json::from_str(body).ok()?;
    let list = json["balances"].as_array()?;
    Some(list.iter().map(|b| BalanceEntry {
        asset_type: b["asset_type"].as_str().map(|s| s.to_string()),
        asset_code: b["asset_code"].as_str().map(|s| s.to_string()),
        balance: b["balance"].as_str().map(|s| s.to_string()),
    }).collect())
}

/// The XLM balance among `entries`: the balance of the last native entry.
pub open spec fn select_xlm(
    entries: Seq<(Option<Seq<char>>, Option<Seq<char>>, Option<Seq<char>>)>,
) -> Option<Seq<char>>
    decreases entries.len(),
{
    if entries.len() == 0 {
        None
    } else if entries.last().0 == Some("native"@) {
        entries.last().2
    } else {
        select_xlm(entries.drop_last())
    }
}

/// The ZSOZSO balance among `entries`: the balance of the last non-native entry whose
/// asset code is `ZSOZSO`.
pub open spec fn select_zsozso(
    entries: Seq<(Option<Seq<char>>, Option<Seq<char>>, Option<Seq<char>>)>,
) -> Option<Seq<char>>
    decreases entries.len(),
{
    if entries.len() == 0 {
        None
    } else if entries.last().0 != Some("native"@) && entries.last().1 == Some("ZSOZSO"@) {
        entries.last().2
    } else {
        select_zsozso(entries.drop_last())
    }
}

/// Whether `e` is the native (XLM) balance entry.
pub open spec fn is_native_entry(e: (Option<Seq<char>>, Option<Seq<char>>, Option<Seq<char>>)) -> bool {
    e.0 == Some("native"@)
}

/// Whether `e` is a balance entry of the ZSOZSO asset: not native, with asset code
/// `ZSOZSO`.
pub open spec fn is_zsozso_entry(e: (Option<Seq<char>>, Option<Seq<char>>, Option<Seq<char>>)) -> bool {
    e.0 != Some("native"@) && e.1 == Some("ZSOZSO"@)
}

/// The ZSOZSO balance comes from a ZSOZSO entry and from no other: with no ZSOZSO entry
/// there is none; otherwise it is the balance of the last ZSOZSO entry (an entry of
/// another asset code, or the native one, never supplies it).
pub proof fn lemma_zsozso_balance_from_zsozso_entry(
    entries: Seq<(Option<Seq<char>>, Option<Seq<char>>, Option<Seq<char>>)>,
)
    ensures
        (forall|i: int| 0 <= i < entries.len() ==> !is_zsozso_entry(#[trigger] entries[i])) ==> select_zsozso(entries) is None,
        (exists|i: int| 0 <= i < entries.len() && is_zsozso_entry(#[trigger] entries[i])) ==> exists|j: int| {
            &&& 0 <= j < entries.len()
            &&& is_zsozso_entry(#[trigger] entries[j])
            &&& select_zsozso(entries) == entries[j].2
            &&& forall|k: int| j < k < entries.len() ==> !is_zsozso_entry(#[trigger] entries[k])
        },
    decreases entries.len(),
{
    if entries.len() > 0 {
        let rest = entries.drop_last();
        lemma_zsozso_balance_from_zsozso_entry(rest);
        let n = entries.len() - 1;
        if is_zsozso_entry(entries[n]) {
            assert(entries.last() == entries[n]);
        } else {
            assert(entries.last() == entries[n]);
            assert forall|i: int| 0 <= i < rest.len() implies rest[i] == entries[i] by {}
            if exists|i: int| 0 <= i < entries.len() && is_zsozso_entry(#[trigger] entries[i]) {
                let i = choose|i: int| 0 <= i < entries.len() && is_zsozso_entry(#[trigger] entries[i]);
                assert(i < n);
                assert(is_zsozso_entry(rest[i]));
                let j = choose|j: int| 0 <= j < rest.len() && is_zsozso_entry(#[trigger] rest[j]) && select_zsozso(rest) == rest[j].2
                    && forall|k: int| j < k < rest.len() ==> !is_zsozso_entry(#[trigger] rest[k]);
                assert(is_zsozso_entry(entries[j]));
                assert forall|k: int| j < k < entries.len() implies !is_zsozso_entry(#[trigger] entries[k]) by {
                    if k < n {
                        assert(entries[k] == rest[k]);
                    }
                }
            } else {
                assert forall|i: int| 0 <= i < rest.len() implies !is_zsozso_entry(#[trigger] rest[i]) by {
                    assert(rest[i] == entries[i]);
                }
            }
        }
    }
}

/// The XLM balance comes from the native entry and from no other: with no native entry
/// there is none; otherwise it is the balance of the last native entry.
pub proof fn lemma_xlm_balance_from_native_entry(
    entries: Seq<(Option<Seq<char>>, Option<Seq<char>>, Option<Seq<char>>)>,
)
    ensures
        (forall|i: int| 0 <= i < entries.len() ==> !is_native_entry(#[trigger] entries[i])) ==> select_xlm(entries) is None,
        (exists|i: int| 0 <= i < entries.len() && is_native_entry(#[trigger] entries[i])) ==> exists|j: int| {
            &&& 0 <= j < entries.len()
            &&& is_native_entry(#[trigger] entries[j])
            &&& select_xlm(entries) == entries[j].2
            &&& forall|k: int| j < k < entries.len() ==> !is_native_entry(#[trigger] entries[k])
        },
    decreases entries.len(),
{
    if entries.len() > 0 {
        let rest = entries.drop_last();
        lemma_xlm_balance_from_native_entry(rest);
        let n = entries.len() - 1;
        if is_native_entry(entries[n]) {
            assert(entries.last() == entries[n]);
        } else {
            assert(entries.last() == entries[n]);
            if exists|i: int| 0 <= i < entries.len() && is_native_entry(#[trigger] entries[i]) {
                let i = choose|i: int| 0 <= i < entries.len() && is_native_entry(#[trigger] entries[i]);
                assert(i < n);
                assert(is_native_entry(rest[i]));
                let j = choose|j: int| 0 <= j < rest.len() && is_native_entry(#[trigger] rest[j]) && select_xlm(rest) == rest[j].2
                    && forall|k: int| j < k < rest.len() ==> !is_native_entry(#[trigger] rest[k]);
                assert(is_native_entry(entries[j]));
                assert forall|k: int| j < k < entries.len() implies !is_native_entry(#[trigger] entries[k]) by {
                    if k < n {
                        assert(entries[k] == rest[k]);
                    }
                }
            } else {
                assert forall|i: int| 0 <= i < rest.len() implies !is_native_entry(#[trigger] rest[i]) by {
                    assert(rest[i] == entries[i]);
                }
            }
        }
    }
}

fn text_equals(o: &Option<String>, t: &str) -> (r: bool)
    ensures
        r == (opt_text(*o) == Some(t@)),
{
    match o {
        Some(s) => str_equal(s.as_str(), t),
        None => false,
    }
}

/// The XLM and ZSOZSO balances among `entries`.
pub fn select_balances(entries: &Vec<BalanceEntry>) -> (r: (Option<String>, Option<String>))
    ensures
        opt_text(r.0) == select_xlm(entries@.map_values(|e: BalanceEntry| entry_fields(e))),
        opt_text(r.1) == select_zsozso(entries@.map_values(|e: BalanceEntry| entry_fields(e))),
{
    let ghost fields = entries@.map_values(|e: BalanceEntry| entry_fields(e));
    let mut xlm: Option<String> = None;
    let mut zsozso: Option<String> = None;
    let mut i: usize = 0;
    while i < entries.len()
        invariant
            i <= entries@.len(),
            fields == entries@.map_values(|e: BalanceEntry| entry_fields(e)),
            opt_text(xlm) == select_xlm(fields.take(i as int)),
            opt_text(zsozso) == select_zsozso(fields.take(i as int)),
        decreases entries.len() - i,
    {
        let e = &entries[i];
        assert(fields.take(i + 1).drop_last() =~= fields.take(i as int));
        assert(fields.take(i + 1).last() == entry_fields(*e));
        if text_equals(&e.asset_type, "native") {
            xlm = match &e.balance {
                Some(b) => Some(b.clone()),
                None => None,
            };
        } else if text_equals(&e.asset_code, "ZSOZSO") {
            zsozso = match &e.balance {
                Some(b) => Some(b.clone()),
                None => None,
            };
        }
        i = i + 1;
    }
    assert(fields.take(entries@.len() as int) =~= fields);
    (xlm, zsozso)
}

/// The Horizon server of `net`.
pub open spec fn horizon_url(net: NetworkEnvironment) -> Seq<char> {
    match net {
        NetworkEnvironment::Production => "https://horizon.stellar.org"@,
        NetworkEnvironment::Test => "https://horizon-testnet.stellar.org"@,
    }
}

/// The Horizon address of account `public_key` on `net`.
pub open spec fn account_url(net: NetworkEnvironment, public_key: Seq<char>) -> Seq<char> {
    horizon_url(net) + "/accounts/"@ + public_key
}

/// The Horizon address of account `public_key` on `net`.
pub fn account_url_of(net: NetworkEnvironment, public_key: &str) -> (r: String)
    ensures
        r@ == account_url(net, public_key@),
{
    let mut r = match net {
        NetworkEnvironment::Production => "https://horizon.stellar.org".to_owned(),
        NetworkEnvironment::Test => "https://horizon-testnet.stellar.org".to_owned(),
    };
    r.append("/accounts/");
    r.append(public_key);
    r
}

/// The XLM and ZSOZSO balances that the Horizon account document `body` lists, or
/// nothing when `body` is no such document.
pub fn balances_from_document(body: &str) -> (r: Option<(Option<String>, Option<String>)>)
    ensures
        r is Some == horizon_balance_entries(body@) is Some,
        r matches Some((xlm, zsozso)) ==> {
            &&& opt_text(xlm) == select_xlm(horizon_balance_entries(body@)->0)
            &&& opt_text(zsozso) == select_zsozso(horizon_balance_entries(body@)->0)
        },
{
    match parse_balance_entries(body) {
        Some(entries) => Some(select_balances(&entries)),
        None => None,
    }
}

/// A Horizon account lookup to make: fetch `url` and read the balances of `network`.
pub struct BalanceRequest {
    pub url: String,
    pub network: NetworkEnvironment,
    pub language: Language,
}

/// What the reply `reply` to balance request `req` does to state `before`: with a
/// document that lists balances, the XLM balance is replaced (and the ZSOZSO balance
/// too, on the main network); the status is cleared in every case.
pub open spec fn balances_received(
    before: WalletState,
    after: WalletState,
    req: BalanceRequest,
    reply: Result<Option<String>, String>,
) -> bool {
    let cleared = WalletState { zs_status: None, ..before };
    match reply {
        Ok(Some(body)) => match horizon_balance_entries(body@) {
            Some(entries) => {
                &&& after == (WalletState {
                    xlm_balance: after.xlm_balance,
                    zsozso_balance: after.zsozso_balance,
                    ..cleared
                })
                &&& opt_text(after.xlm_balance) == select_xlm(entries)
                &&& (req.network == NetworkEnvironment::Production ==> opt_text(after.zsozso_balance) == select_zsozso(entries))
                &&& (req.network == NetworkEnvironment::Test ==> after.zsozso_balance == before.zsozso_balance)
            },
            None => after == cleared,
        },
        _ => after == cleared,
    }
}

impl AppController {
    /// Fetch the balances of the active account from Horizon. Without a public key the
    /// status says to load one, and nothing is asked.
    pub fn fetch_balances_action(&mut self) -> (r: Option<BalanceRequest>)
        ensures
            final(self).s == (WalletState { zs_status: final(self).s.zs_status, ..old(self).s }),
            match old(self).s.public_key {
                None => r is None && text_is(final(self).s.zs_status, ui_str(old(self).s.language, UiStr::ZsNoKey)),
                Some(pk) => r matches Some(req) && {
                    &&& req.url@ == account_url(old(self).s.current_network, pk@)
                    &&& req.network == old(self).s.current_network
                    &&& req.language == old(self).s.language
                    &&& text_is(final(self).s.zs_status, ui_str(old(self).s.language, UiStr::ZsFetchingBalances))
                },
            },
    {
        let i18n = ui_i18n(self.s.language);
        match clone_text(&self.s.public_key) {
            None => {
                self.s.zs_status = Some(i18n.zs_no_key().to_owned());
                None
            },
            Some(pk) => {
                self.s.zs_status = Some(i18n.zs_fetching_balances().to_owned());
                let url = account_url_of(self.s.current_network, pk.as_str());
                Some(BalanceRequest { url, network: self.s.current_network, language: self.s.language })
            },
        }
    }

    /// Horizon answered balance request `req`: `Ok(Some(body))` with the document
    /// `body`, `Ok(None)` with a body that could not be read, `Err(e)` when the request
    /// failed. Gives the line to log, if any.
    #[verifier::rlimit(40)]
    pub fn finish_fetch_balances(&mut self, req: BalanceRequest, reply: Result<Option<String>, String>) -> (line: Option<String>)
        ensures
            balances_received(old(self).s, final(self).s, req, reply),
            match reply {
                Err(e) => text_is(line, "[fetch_balances] Error: "@ + e@),
                _ => line is None,
            },
    {
        let mut line: Option<String> = None;
        match &reply {
            Ok(Some(body)) => {
                if let Some((xlm, zsozso)) = balances_from_document(body.as_str()) {
                    self.s.xlm_balance = xlm;
                    if let NetworkEnvironment::Production = req.network {
                        self.s.zsozso_balance = zsozso;
                    }
                }
            },
            Ok(None) => {},
            Err(e) => {
                line = Some(concat("[fetch_balances] Error: ", e.as_str()));
            },
        }
        self.s.zs_status = None;
        line
    }
}

} // verus!
