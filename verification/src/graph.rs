//! The wallet's conversations with the graph database of the network (GunDB): adding a
//! worker, loading the hierarchy, saving the nickname and relay URL, and generating the
//! SEA keys.

use vstd::prelude::*;
use crate::language::Language;
use crate::state::WalletState;
use crate::controller::AppController;
use crate::flows::texts;
use crate::i18n::{UiI18n, UiStr, UiFmt, ui_str, ui_fmt_with, ui_i18n};
use crate::text::{clone_text, concat, decimal_nat, decimal_usize, str_equal, text_is, trim};

verus! {

/// The graph database to talk to: the language of its messages and its relay peers.
pub struct GraphContext {
    pub language: Language,
    pub peers: Vec<String>,
}

/// What the wallet asks the graph database (or the camera, or the key generator) next.
pub enum GraphRequest {
    /// Nothing: the flow is over.
    Finished,
    /// Scan a QR code with the camera.
    ScanQr,
    AddWorker { node: String, worker: String },
    GetWorkers { node: String },
    GetAncestors { node: String, depth: usize },
    GetNickname { node: String },
    GetGunAddress { node: String },
    GetGunRelayUrl { node: String },
    SetNickname { node: String, nickname: String },
    SetGunRelayUrl { node: String, url: String },
    SetGunAddress { node: String, address: String },
    /// Derive a SEA key pair from the passphrase.
    SeaPairFromSeed { passphrase: String },
    /// Split `secret` into `shares` recovery shares, any `threshold` of which recover it.
    SplitSecret { secret: String, threshold: u8, shares: u8 },
}

/// What the graph database (or the camera, or the key generator) answered.
pub enum GraphReply {
    /// The scanned text, or an error (`cancelled` when the user closed the camera).
    Scanned(Result<String, String>),
    /// A write succeeded or failed.
    Written(Result<(), String>),
    /// A list of public keys, or an error.
    Keys(Result<Vec<String>, String>),
    /// A looked-up value (if there is one), or an error.
    Lookup(Result<Option<String>, String>),
    /// The public key of the derived SEA key pair, or an error.
    SeaPair(Result<String, String>),
    /// The recovery shares, as hex text.
    Shares(Vec<String>),
}

/// The lines to log, and the next request.
pub struct GraphStep {
    pub logs: Vec<String>,
    pub request: GraphRequest,
}

/// How many ancestors the hierarchy shows.
pub const ANCESTOR_DEPTH: usize = 6;

/// The keys whose nicknames are looked up: the ancestors, then the workers.
pub open spec fn lookup_keys(ancestors: Seq<String>, workers: Seq<String>) -> Seq<String> {
    ancestors + workers
}

/// The nicknames looked up are those of every ancestor, in order, followed by every
/// worker, in order: as many keys as ancestors and workers together, with no key left
/// out.
pub proof fn lemma_lookup_keys_cover_all(ancestors: Seq<String>, workers: Seq<String>)
    ensures
        lookup_keys(ancestors, workers).len() == ancestors.len() + workers.len(),
        forall|i: int| 0 <= i < ancestors.len() ==> #[trigger] lookup_keys(ancestors, workers)[i] == ancestors[i],
        forall|j: int| 0 <= j < workers.len() ==> #[trigger] lookup_keys(ancestors, workers)[ancestors.len() + j] == workers[j],
        forall|w: String| workers.contains(w) ==> lookup_keys(ancestors, workers).contains(w),
        forall|a: String| ancestors.contains(a) ==> lookup_keys(ancestors, workers).contains(a),
{
    let keys = lookup_keys(ancestors, workers);
    assert forall|w: String| workers.contains(w) implies keys.contains(w) by {
        let j = choose|j: int| 0 <= j < workers.len() && workers[j] == w;
        assert(keys[ancestors.len() + j] == w);
    }
    assert forall|a: String| ancestors.contains(a) implies keys.contains(a) by {
        let i = choose|i: int| 0 <= i < ancestors.len() && ancestors[i] == a;
        assert(keys[i] == a);
    }
}

fn graph_finished(logs: Vec<String>) -> (r: GraphStep)
    ensures
        r.logs == logs,
        texts(r.logs@) == texts(logs@),
        r.request is Finished,
{
    GraphStep { logs, request: GraphRequest::Finished }
}

fn lines1(a: String) -> (r: Vec<String>)
    ensures
        texts(r@) == seq![a@],
{
    let mut v = Vec::new();
    v.push(a);
    assert(texts(v@) =~= seq![a@]);
    v
}

fn lines2(a: String, b: String) -> (r: Vec<String>)
    ensures
        texts(r@) == seq![a@, b@],
{
    let mut v = Vec::new();
    v.push(a);
    v.push(b);
    assert(texts(v@) =~= seq![a@, b@]);
    v
}

fn push_line(v: Vec<String>, a: String) -> (r: Vec<String>)
    ensures
        texts(r@) == texts(v@).push(a@),
{
    let mut v = v;
    let ghost before = texts(v@);
    v.push(a);
    assert(texts(v@) =~= before.push(a@));
    v
}

fn empty_lines() -> (r: Vec<String>)
    ensures
        r@.len() == 0,
        texts(r@) == Seq::<Seq<char>>::empty(),
{
    let v: Vec<String> = Vec::new();
    assert(texts(v@) =~= Seq::<Seq<char>>::empty());
    v
}

fn keys_or_empty(res: Result<Vec<String>, String>) -> (r: Vec<String>)
    ensures
        match res {
            Ok(v) => r == v,
            Err(_) => r@.len() == 0,
        },
{
    match res {
        Ok(v) => v,
        Err(_) => Vec::new(),
    }
}

fn append_keys(a: &Vec<String>, b: &Vec<String>) -> (r: Vec<String>)
    ensures
        r@ == lookup_keys(a@, b@),
        r@.len() == a@.len() + b@.len(),
        forall|i: int| 0 <= i < a@.len() ==> #[trigger] r@[i] == a@[i],
        forall|j: int| 0 <= j < b@.len() ==> #[trigger] r@[a@.len() + j] == b@[j],
{
    let mut r: Vec<String> = Vec::new();
    let mut i: usize = 0;
    while i < a.len()
        invariant
            i <= a@.len(),
            r@ == a@.take(i as int),
        decreases a.len() - i,
    {
        r.push(a[i].clone());
        assert(a@.take(i + 1) =~= a@.take(i as int).push(a@[i as int]));
        i = i + 1;
    }
    assert(a@.take(a@.len() as int) =~= a@);
    let mut j: usize = 0;
    while j < b.len()
        invariant
            j <= b@.len(),
            r@ == a@ + b@.take(j as int),
        decreases b.len() - j,
    {
        r.push(b[j].clone());
        assert(b@.take(j + 1) =~= b@.take(j as int).push(b@[j as int]));
        assert(a@ + b@.take(j + 1) =~= (a@ + b@.take(j as int)).push(b@[j as int]));
        j = j + 1;
    }
    assert(b@.take(b@.len() as int) =~= b@);
    r
}

/// Where adding a worker stands.
#[derive(Clone, Copy)]
pub enum AddWorkerStage {
    AwaitScan,
    AwaitAdd,
    AwaitWorkers,
    AwaitAncestors,
    /// Waiting for the nickname of the key at this index of the lookup keys.
    AwaitNickname(usize),
    Done,
}

/// Adding a scanned public key as a worker of this node, then reloading the hierarchy.
pub struct AddWorkerFlow {
    pub context: GraphContext,
    /// This node's public key.
    pub node: String,
    /// The scanned worker key.
    pub worker: String,
    pub workers: Vec<String>,
    pub ancestors: Vec<String>,
    /// The nicknames found so far (a later entry for a key replaces an earlier one).
    pub nicknames: Vec<(String, String)>,
    pub stage: AddWorkerStage,
}

/// Whether `r` is how the nickname lookups of flow `f` go on from index `i` of its lookup
/// keys, from `before` to `after`, after lines `logs`: the next key's nickname is asked
/// for, or, with none left, the nicknames are kept and `done_line` is logged.
pub open spec fn add_worker_lookups(before: WalletState, after: WalletState, f: AddWorkerFlow, i: int, r: (AddWorkerFlow, GraphStep), logs: Seq<Seq<char>>) -> bool {
    let keys = lookup_keys(f.ancestors@, f.workers@);
    if i < keys.len() {
        &&& after == before
        &&& r.0 == (AddWorkerFlow { stage: AddWorkerStage::AwaitNickname(i as usize), ..f })
        &&& texts(r.1.logs@) == logs
        &&& r.1.request == GraphRequest::GetNickname { node: keys[i] }
    } else {
        &&& after == (WalletState { network_nicknames: after.network_nicknames, ..before })
        &&& after.network_nicknames@ == f.nicknames@
        &&& r.0 == (AddWorkerFlow { stage: AddWorkerStage::Done, ..f })
        &&& texts(r.1.logs@) == logs.push("[add_worker_action] Network data reloaded"@)
        &&& r.1.request is Finished
    }
}

impl AppController {
    /// Add a worker: scan its public key with the camera, then add it under this node.
    /// A SEA key pair is needed for the write (without one the SEA modal opens), and so
    /// is a public key.
    pub fn add_worker_action(&mut self) -> (r: (AddWorkerFlow, GraphStep))
        ensures
            !old(self).s.has_sea_key_pair ==> {
                &&& final(self).s == (WalletState { sea_modal_open: true, ..old(self).s })
                &&& texts(r.1.logs@) == seq!["[add_worker_action] No SEA keypair, opening modal"@]
                &&& r.1.request is Finished
            },
            old(self).s.has_sea_key_pair && old(self).s.public_key is None ==> {
                &&& final(self).s == (WalletState { ping_status: final(self).s.ping_status, ..old(self).s })
                &&& text_is(final(self).s.ping_status, ui_str(old(self).s.language, UiStr::NetworkNoKey))
                &&& texts(r.1.logs@) == seq!["[add_worker_action] No public key"@]
                &&& r.1.request is Finished
            },
            old(self).s.has_sea_key_pair ==> (old(self).s.public_key matches Some(pk) ==> {
                &&& final(self).s == (WalletState { ping_status: final(self).s.ping_status, ..old(self).s })
                &&& text_is(final(self).s.ping_status, ui_str(old(self).s.language, UiStr::ScanScanning))
                &&& texts(r.1.logs@) == seq!["[add_worker_action] Starting QR scan to add worker for pk="@ + pk@]
                &&& r.1.request is ScanQr
                &&& r.0.stage is AwaitScan
                &&& r.0.node == pk
                &&& r.0.workers@.len() == 0
                &&& r.0.ancestors@.len() == 0
                &&& r.0.nicknames@.len() == 0
                &&& r.0.context.language == old(self).s.language
                &&& (trim(old(self).s.gun_relay_url@).len() == 0 ==> r.0.context.peers@.len() == 0)
                &&& (trim(old(self).s.gun_relay_url@).len() > 0 ==> r.0.context.peers@ == seq![old(self).s.gun_relay_url])
            }),
    {
        let lang = self.s.language;
        let i18n = ui_i18n(lang);
        let peers = self.gun_peers();
        let context = GraphContext { language: lang, peers };
        let idle = AddWorkerFlow {
            context,
            node: String::new(),
            worker: String::new(),
            workers: Vec::new(),
            ancestors: Vec::new(),
            nicknames: Vec::new(),
            stage: AddWorkerStage::Done,
        };
        if !self.s.has_sea_key_pair {
            self.open_sea_modal();
            return (idle, graph_finished(lines1("[add_worker_action] No SEA keypair, opening modal".to_owned())));
        }
        match clone_text(&self.s.public_key) {
            None => {
                self.s.ping_status = Some(i18n.network_no_key().to_owned());
                (idle, graph_finished(lines1("[add_worker_action] No public key".to_owned())))
            },
            Some(pk) => {
                let line = concat("[add_worker_action] Starting QR scan to add worker for pk=", pk.as_str());
                self.s.ping_status = Some(i18n.scan_scanning().to_owned());
                (AddWorkerFlow { node: pk, stage: AddWorkerStage::AwaitScan, ..idle }, GraphStep { logs: lines1(line), request: GraphRequest::ScanQr })
            },
        }
    }

    fn add_worker_lookup(&mut self, f: AddWorkerFlow, i: usize, logs: Vec<String>) -> (r: (AddWorkerFlow, GraphStep))
        ensures
            add_worker_lookups(old(self).s, final(self).s, f, i as int, r, texts(logs@)),
    {
        let keys = append_keys(&f.ancestors, &f.workers);
        if i < keys.len() {
            let node = keys[i].clone();
            (AddWorkerFlow { stage: AddWorkerStage::AwaitNickname(i), ..f }, GraphStep { logs, request: GraphRequest::GetNickname { node } })
        } else {
            let nicks = clone_pairs(&f.nicknames);
            self.s.network_nicknames = nicks;
            let logs = push_line(logs, "[add_worker_action] Network data reloaded".to_owned());
            (AddWorkerFlow { stage: AddWorkerStage::Done, ..f }, graph_finished(logs))
        }
    }

    /// Continue adding a worker with the answer `reply`.
    #[verifier::rlimit(40)]
    pub fn add_worker_step(&mut self, flow: AddWorkerFlow, reply: GraphReply) -> (r: (AddWorkerFlow, GraphStep))
        ensures
            match (flow.stage, reply) {
                (AddWorkerStage::AwaitScan, GraphReply::Scanned(Ok(worker))) => {
                    &&& final(self).s == old(self).s
                    &&& r.0 == (AddWorkerFlow { stage: AddWorkerStage::AwaitAdd, worker, ..flow })
                    &&& texts(r.1.logs@) == seq!["[add_worker_action] Scanned worker key: "@ + worker@]
                    &&& r.1.request == GraphRequest::AddWorker { node: flow.node, worker }
                },
                (AddWorkerStage::AwaitScan, GraphReply::Scanned(Err(e))) => {
                    &&& final(self).s == (WalletState { ping_status: final(self).s.ping_status, ..old(self).s })
                    &&& r.0 == (AddWorkerFlow { stage: AddWorkerStage::Done, ..flow })
                    &&& r.1.request is Finished
                    &&& if e@ == "cancelled"@ {
                        &&& final(self).s.ping_status is None
                        &&& texts(r.1.logs@) == seq!["[add_worker_action] QR scan cancelled"@]
                    } else {
                        &&& text_is(final(self).s.ping_status, ui_fmt_with(flow.context.language, UiFmt::ScanError, e@))
                        &&& texts(r.1.logs@) == seq!["[add_worker_action] QR scan error: "@ + e@]
                    }
                },
                (AddWorkerStage::AwaitAdd, GraphReply::Written(Ok(_))) => {
                    &&& final(self).s == (WalletState { ping_status: final(self).s.ping_status, ..old(self).s })
                    &&& text_is(final(self).s.ping_status, ui_fmt_with(flow.context.language, UiFmt::NetworkAddWorkerSuccess, flow.worker@))
                    &&& texts(r.1.logs@) == seq!["[add_worker_action] Worker added successfully"@, "[add_worker_action] Reloading network data..."@]
                    &&& r.0 == (AddWorkerFlow { stage: AddWorkerStage::AwaitWorkers, ..flow })
                    &&& r.1.request == GraphRequest::GetWorkers { node: flow.node }
                },
                (AddWorkerStage::AwaitAdd, GraphReply::Written(Err(e))) => {
                    &&& final(self).s == (WalletState { ping_status: final(self).s.ping_status, ..old(self).s })
                    &&& text_is(final(self).s.ping_status, ui_fmt_with(flow.context.language, UiFmt::NetworkAddWorkerError, e@))
                    &&& r.0 == (AddWorkerFlow { stage: AddWorkerStage::Done, ..flow })
                    &&& texts(r.1.logs@) == seq!["[add_worker_action] Failed to add worker: "@ + e@]
                    &&& r.1.request is Finished
                },
                (AddWorkerStage::AwaitWorkers, GraphReply::Keys(res)) => {
                    &&& final(self).s == (WalletState { network_workers: final(self).s.network_workers, ..old(self).s })
                    &&& final(self).s.network_workers@ == r.0.workers@
                    &&& match res { Ok(v) => r.0.workers == v, Err(_) => r.0.workers@.len() == 0 }
                    &&& r.0 == (AddWorkerFlow { stage: AddWorkerStage::AwaitAncestors, workers: r.0.workers, ..flow })
                    &&& r.1.logs@.len() == 0
                    &&& r.1.request == GraphRequest::GetAncestors { node: flow.node, depth: ANCESTOR_DEPTH }
                },
                (AddWorkerStage::AwaitAncestors, GraphReply::Keys(res)) => {
                    &&& match res { Ok(v) => r.0.ancestors == v, Err(_) => r.0.ancestors@.len() == 0 }
                    &&& final(self).s.network_parents@ == r.0.ancestors@
                    &&& add_worker_lookups(
                        WalletState { network_parents: final(self).s.network_parents, ..old(self).s },
                        final(self).s,
                        AddWorkerFlow { ancestors: r.0.ancestors, ..flow },
                        0,
                        r,
                        Seq::empty(),
                    )
                },
                (AddWorkerStage::AwaitNickname(i), GraphReply::Lookup(res)) => {
                    let keys = lookup_keys(flow.ancestors@, flow.workers@);
                    let nicknames = match res {
                        Ok(Some(nick)) => if (i as int) < keys.len() {
                            flow.nicknames@.push((keys[i as int], nick))
                        } else {
                            flow.nicknames@
                        },
                        _ => flow.nicknames@,
                    };
                    &&& r.0.nicknames@ == nicknames
                    &&& add_worker_lookups(old(self).s, final(self).s, AddWorkerFlow { nicknames: r.0.nicknames, ..flow }, i + 1, r, Seq::empty())
                },
                _ => final(self).s == old(self).s && r.0 == (AddWorkerFlow { stage: AddWorkerStage::Done, ..flow }) && r.1.logs@.len() == 0 && r.1.request is Finished,
            },
    {
        let lang = flow.context.language;
        let i18n = ui_i18n(lang);
        match (flow.stage, reply) {
            (AddWorkerStage::AwaitScan, GraphReply::Scanned(Ok(worker))) => {
                let line = concat("[add_worker_action] Scanned worker key: ", worker.as_str());
                let request = GraphRequest::AddWorker { node: flow.node.clone(), worker: worker.clone() };
                (AddWorkerFlow { stage: AddWorkerStage::AwaitAdd, worker, ..flow }, GraphStep { logs: lines1(line), request })
            },
            (AddWorkerStage::AwaitScan, GraphReply::Scanned(Err(e))) => {
                if str_equal(e.as_str(), "cancelled") {
                    self.s.ping_status = None;
                    (AddWorkerFlow { stage: AddWorkerStage::Done, ..flow }, graph_finished(lines1("[add_worker_action] QR scan cancelled".to_owned())))
                } else {
                    self.s.ping_status = Some(i18n.scan_error(e.as_str()));
                    let line = concat("[add_worker_action] QR scan error: ", e.as_str());
                    (AddWorkerFlow { stage: AddWorkerStage::Done, ..flow }, graph_finished(lines1(line)))
                }
            },
            (AddWorkerStage::AwaitAdd, GraphReply::Written(Ok(_))) => {
                self.s.ping_status = Some(i18n.network_add_worker_success(flow.worker.as_str()));
                let logs = lines2("[add_worker_action] Worker added successfully".to_owned(), "[add_worker_action] Reloading network data...".to_owned());
                let request = GraphRequest::GetWorkers { node: flow.node.clone() };
                (AddWorkerFlow { stage: AddWorkerStage::AwaitWorkers, ..flow }, GraphStep { logs, request })
            },
            (AddWorkerStage::AwaitAdd, GraphReply::Written(Err(e))) => {
                self.s.ping_status = Some(i18n.network_add_worker_error(e.as_str()));
                let line = concat("[add_worker_action] Failed to add worker: ", e.as_str());
                (AddWorkerFlow { stage: AddWorkerStage::Done, ..flow }, graph_finished(lines1(line)))
            },
            (AddWorkerStage::AwaitWorkers, GraphReply::Keys(res)) => {
                let workers = keys_or_empty(res);
                self.s.network_workers = clone_keys(&workers);
                let request = GraphRequest::GetAncestors { node: flow.node.clone(), depth: ANCESTOR_DEPTH };
                (AddWorkerFlow { stage: AddWorkerStage::AwaitAncestors, workers, ..flow }, GraphStep { logs: Vec::new(), request })
            },
            (AddWorkerStage::AwaitAncestors, GraphReply::Keys(res)) => {
                let ancestors = keys_or_empty(res);
                self.s.network_parents = clone_keys(&ancestors);
                self.add_worker_lookup(AddWorkerFlow { ancestors, ..flow }, 0, empty_lines())
            },
            (AddWorkerStage::AwaitNickname(i), GraphReply::Lookup(res)) => {
                let keys = append_keys(&flow.ancestors, &flow.workers);
                let mut nicknames = flow.nicknames;
                if let Ok(Some(nick)) = res {
                    if i < keys.len() {
                        nicknames.push((keys[i].clone(), nick));
                    }
                }
                let next = if i < keys.len() { i + 1 } else { keys.len() };
                self.add_worker_lookup(AddWorkerFlow { nicknames, ..flow }, next, empty_lines())
            },
            _ => (AddWorkerFlow { stage: AddWorkerStage::Done, ..flow }, graph_finished(empty_lines())),
        }
    }
}

/// A copy of `v`.
pub fn clone_keys(v: &Vec<String>) -> (r: Vec<String>)
    ensures
        r@ == v@,
{
    let mut r: Vec<String> = Vec::new();
    let mut i: usize = 0;
    while i < v.len()
        invariant
            i <= v@.len(),
            r@ == v@.take(i as int),
        decreases v.len() - i,
    {
        r.push(v[i].clone());
        assert(v@.take(i + 1) =~= v@.take(i as int).push(v@[i as int]));
        i = i + 1;
    }
    assert(v@.take(v@.len() as int) =~= v@);
    assert(r@ =~= v@);
    r
}

/// A copy of `v`.
pub fn clone_pairs(v: &Vec<(String, String)>) -> (r: Vec<(String, String)>)
    ensures
        r@ == v@,
{
    let mut r: Vec<(String, String)> = Vec::new();
    let mut i: usize = 0;
    while i < v.len()
        invariant
            i <= v@.len(),
            r@ == v@.take(i as int),
        decreases v.len() - i,
    {
        let (a, b) = &v[i];
        r.push((a.clone(), b.clone()));
        assert(v@.take(i + 1) =~= v@.take(i as int).push(v@[i as int]));
        i = i + 1;
    }
    assert(v@.take(v@.len() as int) =~= v@);
    assert(r@ =~= v@);
    r
}


/// Where loading the hierarchy stands.
#[derive(Clone, Copy)]
pub enum LoadNetworkStage {
    AwaitAncestors,
    AwaitWorkers,
    AwaitOwnNickname,
    AwaitGunAddress,
    AwaitRelayUrl,
    /// Waiting for the nickname of the key at this index of the lookup keys.
    AwaitNickname(usize),
    Done,
}

/// Loading this node's hierarchy (ancestors, workers, their nicknames) and its own
/// nickname, GUN address and relay URL.
pub struct LoadNetworkFlow {
    pub context: GraphContext,
    pub node: String,
    pub ancestors: Vec<String>,
    pub workers: Vec<String>,
    pub nicknames: Vec<(String, String)>,
    pub stage: LoadNetworkStage,
}

/// Whether `r` is how the nickname lookups of flow `f` go on from index `i`, from
/// `before` to `after`, after lines `logs`.
pub open spec fn load_network_lookups(before: WalletState, after: WalletState, f: LoadNetworkFlow, i: int, r: (LoadNetworkFlow, GraphStep), logs: Seq<Seq<char>>) -> bool {
    let keys = lookup_keys(f.ancestors@, f.workers@);
    if i < keys.len() {
        &&& after == before
        &&& r.0 == (LoadNetworkFlow { stage: LoadNetworkStage::AwaitNickname(i as usize), ..f })
        &&& texts(r.1.logs@) == logs
        &&& r.1.request == GraphRequest::GetNickname { node: keys[i] }
    } else {
        &&& after == (WalletState { network_nicknames: after.network_nicknames, ..before })
        &&& after.network_nicknames@ == f.nicknames@
        &&& r.0 == (LoadNetworkFlow { stage: LoadNetworkStage::Done, ..f })
        &&& texts(r.1.logs@) == logs.push("[load_network_action] Done"@)
        &&& r.1.request is Finished
    }
}

/// The lines that report a looked-up value: `found` followed by the value, if there is
/// one, then `next`.
pub open spec fn lookup_lines(res: Result<Option<String>, String>, found: Seq<char>, next: Seq<char>) -> Seq<Seq<char>> {
    match res {
        Ok(Some(v)) => seq![found + v@, next],
        _ => seq![next],
    }
}

fn lookup_report(res: &Result<Option<String>, String>, found: &str, next: &str) -> (r: Vec<String>)
    ensures
        texts(r@) == lookup_lines(*res, found@, next@),
{
    match res {
        Ok(Some(v)) => lines2(concat(found, v.as_str()), next.to_owned()),
        _ => lines1(next.to_owned()),
    }
}

fn count_line(prefix: &str, n: usize, suffix: &str) -> (r: String)
    ensures
        r@ == prefix@ + decimal_nat(n as nat) + suffix@,
{
    let mut r = concat(prefix, decimal_usize(n).as_str());
    r.append(suffix);
    r
}

/// Where generating the SEA keys stands.
#[derive(Clone, Copy)]
pub enum SeaStage {
    AwaitPair,
    AwaitStore,
    AwaitShares,
    Done,
}

/// Generating the SEA key pair from the typed passphrase, publishing its public key as
/// this node's GUN address, and splitting the passphrase into recovery shares.
pub struct SeaFlow {
    pub context: GraphContext,
    pub passphrase: String,
    /// This node's public key when generation started.
    pub node: Option<String>,
    pub stage: SeaStage,
}

/// How many recovery shares the passphrase is split into.
pub const SHARE_COUNT: u8 = 7;

/// How many recovery shares recover the passphrase.
pub const SHARE_THRESHOLD: u8 = 3;

/// `s` with the SEA modal closed and its input forgotten.
pub open spec fn sea_modal_closed(s: WalletState, after: WalletState) -> bool {
    &&& after.sea_modal_input@ == Seq::<char>::empty()
    &&& !after.sea_modal_open
    &&& after == (WalletState { sea_modal_input: after.sea_modal_input, sea_modal_open: false, ..s })
}

/// Whether `r` asks flow `f` to split its passphrase into recovery shares, after lines
/// `logs`.
pub open spec fn sea_splits(f: SeaFlow, r: (SeaFlow, GraphStep), logs: Seq<Seq<char>>) -> bool {
    &&& r.0 == (SeaFlow { stage: SeaStage::AwaitShares, ..f })
    &&& texts(r.1.logs@) == logs
    &&& (r.1.request matches GraphRequest::SplitSecret { secret, threshold, shares } && secret@ == f.passphrase@ && threshold == SHARE_THRESHOLD && shares == SHARE_COUNT)
}

fn sea_split(f: SeaFlow, logs: Vec<String>) -> (r: (SeaFlow, GraphStep))
    ensures
        sea_splits(f, r, texts(logs@)),
{
    let secret = f.passphrase.clone();
    (SeaFlow { stage: SeaStage::AwaitShares, ..f }, GraphStep { logs, request: GraphRequest::SplitSecret { secret, threshold: SHARE_THRESHOLD, shares: SHARE_COUNT } })
}

/// Saving the nickname or the relay URL.
pub struct GraphWriteFlow {
    pub context: GraphContext,
    /// Whether the write was asked for and its answer is awaited.
    pub awaiting: bool,
}

/// Whether starting a write from `before` to `after` with `r` first checks the SEA key
/// pair (opening the SEA modal and logging `no_pair` without one) and then the public
/// key (logging `no_key` without one).
pub open spec fn write_refused(before: WalletState, after: WalletState, no_pair: Seq<char>, no_key: Seq<char>, r: (GraphWriteFlow, GraphStep)) -> bool {
    &&& !before.has_sea_key_pair ==> {
        &&& after == (WalletState { sea_modal_open: true, ..before })
        &&& texts(r.1.logs@) == seq![no_pair]
        &&& r.1.request is Finished
    }
    &&& before.has_sea_key_pair && before.public_key is None ==> {
        &&& after == before
        &&& texts(r.1.logs@) == seq![no_key]
        &&& r.1.request is Finished
    }
}

impl AppController {
    /// Load this node's hierarchy from the graph database. Without a public key there
    /// is nothing to load.
    pub fn load_network_action(&mut self) -> (r: (LoadNetworkFlow, GraphStep))
        ensures
            final(self).s == old(self).s,
            old(self).s.public_key is None ==> texts(r.1.logs@) == seq!["[load_network_action] No public key, skipping"@] && r.1.request is Finished,
            old(self).s.public_key matches Some(pk) ==> {
                &&& r.0.node == pk
                &&& r.0.ancestors@.len() == 0
                &&& r.0.workers@.len() == 0
                &&& r.0.nicknames@.len() == 0
                &&& r.0.stage is AwaitAncestors
                &&& r.0.context.language == old(self).s.language
                &&& (trim(old(self).s.gun_relay_url@).len() == 0 ==> r.0.context.peers@.len() == 0)
                &&& (trim(old(self).s.gun_relay_url@).len() > 0 ==> r.0.context.peers@ == seq![old(self).s.gun_relay_url])
                &&& texts(r.1.logs@) == seq!["[load_network_action] Loading network data for pk="@ + pk@, "[load_network_action] Fetching ancestors..."@]
                &&& r.1.request == GraphRequest::GetAncestors { node: pk, depth: ANCESTOR_DEPTH }
            },
    {
        let peers = self.gun_peers();
        let context = GraphContext { language: self.s.language, peers };
        let idle = LoadNetworkFlow { context, node: String::new(), ancestors: Vec::new(), workers: Vec::new(), nicknames: Vec::new(), stage: LoadNetworkStage::Done };
        match clone_text(&self.s.public_key) {
            None => (idle, graph_finished(lines1("[load_network_action] No public key, skipping".to_owned()))),
            Some(pk) => {
                let logs = lines2(concat("[load_network_action] Loading network data for pk=", pk.as_str()), "[load_network_action] Fetching ancestors...".to_owned());
                let request = GraphRequest::GetAncestors { node: pk.clone(), depth: ANCESTOR_DEPTH };
                (LoadNetworkFlow { node: pk, stage: LoadNetworkStage::AwaitAncestors, ..idle }, GraphStep { logs, request })
            },
        }
    }

    fn load_network_lookup(&mut self, f: LoadNetworkFlow, i: usize, logs: Vec<String>) -> (r: (LoadNetworkFlow, GraphStep))
        ensures
            load_network_lookups(old(self).s, final(self).s, f, i as int, r, texts(logs@)),
    {
        let keys = append_keys(&f.ancestors, &f.workers);
        if i < keys.len() {
            let node = keys[i].clone();
            (LoadNetworkFlow { stage: LoadNetworkStage::AwaitNickname(i), ..f }, GraphStep { logs, request: GraphRequest::GetNickname { node } })
        } else {
            self.s.network_nicknames = clone_pairs(&f.nicknames);
            let logs = push_line(logs, "[load_network_action] Done".to_owned());
            (LoadNetworkFlow { stage: LoadNetworkStage::Done, ..f }, graph_finished(logs))
        }
    }

    /// Continue loading the hierarchy with the answer `reply`.
    #[verifier::rlimit(40)]
    pub fn load_network_step(&mut self, flow: LoadNetworkFlow, reply: GraphReply) -> (r: (LoadNetworkFlow, GraphStep))
        ensures
            match (flow.stage, reply) {
                (LoadNetworkStage::AwaitAncestors, GraphReply::Keys(res)) => {
                    &&& match res { Ok(v) => r.0.ancestors == v, Err(_) => r.0.ancestors@.len() == 0 }
                    &&& final(self).s == (WalletState { network_parents: final(self).s.network_parents, ..old(self).s })
                    &&& final(self).s.network_parents@ == r.0.ancestors@
                    &&& texts(r.1.logs@) == seq![
                        "[load_network_action] Got "@ + decimal_nat(r.0.ancestors@.len()) + " ancestors"@,
                        "[load_network_action] Fetching workers..."@,
                    ]
                    &&& r.0 == (LoadNetworkFlow { stage: LoadNetworkStage::AwaitWorkers, ancestors: r.0.ancestors, ..flow })
                    &&& r.1.request == GraphRequest::GetWorkers { node: flow.node }
                },
                (LoadNetworkStage::AwaitWorkers, GraphReply::Keys(res)) => {
                    &&& match res { Ok(v) => r.0.workers == v, Err(_) => r.0.workers@.len() == 0 }
                    &&& final(self).s == (WalletState { network_workers: final(self).s.network_workers, ..old(self).s })
                    &&& final(self).s.network_workers@ == r.0.workers@
                    &&& texts(r.1.logs@) == seq![
                        "[load_network_action] Got "@ + decimal_nat(r.0.workers@.len()) + " workers"@,
                        "[load_network_action] Fetching own nickname..."@,
                    ]
                    &&& r.0 == (LoadNetworkFlow { stage: LoadNetworkStage::AwaitOwnNickname, workers: r.0.workers, ..flow })
                    &&& r.1.request == GraphRequest::GetNickname { node: flow.node }
                },
                (LoadNetworkStage::AwaitOwnNickname, GraphReply::Lookup(res)) => {
                    &&& match res {
                        Ok(Some(v)) => final(self).s == (WalletState { nickname: v, ..old(self).s }),
                        _ => final(self).s == old(self).s,
                    }
                    &&& texts(r.1.logs@) == lookup_lines(res, "[load_network_action] Own nickname="@, "[load_network_action] Fetching GUN address..."@)
                    &&& r.0 == (LoadNetworkFlow { stage: LoadNetworkStage::AwaitGunAddress, ..flow })
                    &&& r.1.request == GraphRequest::GetGunAddress { node: flow.node }
                },
                (LoadNetworkStage::AwaitGunAddress, GraphReply::Lookup(res)) => {
                    &&& match res {
                        Ok(Some(v)) => final(self).s == (WalletState { gun_address: v, ..old(self).s }),
                        _ => final(self).s == old(self).s,
                    }
                    &&& texts(r.1.logs@) == lookup_lines(res, "[load_network_action] GUN address="@, "[load_network_action] Fetching GUN relay URL..."@)
                    &&& r.0 == (LoadNetworkFlow { stage: LoadNetworkStage::AwaitRelayUrl, ..flow })
                    &&& r.1.request == GraphRequest::GetGunRelayUrl { node: flow.node }
                },
                (LoadNetworkStage::AwaitRelayUrl, GraphReply::Lookup(res)) => {
                    let mid = match res {
                        Ok(Some(v)) => WalletState { gun_relay_url: v, ..old(self).s },
                        _ => old(self).s,
                    };
                    load_network_lookups(mid, final(self).s, flow, 0, r,
                        lookup_lines(res, "[load_network_action] GUN relay URL="@, "[load_network_action] Fetching nicknames for ancestors and workers..."@))
                },
                (LoadNetworkStage::AwaitNickname(i), GraphReply::Lookup(res)) => {
                    let keys = lookup_keys(flow.ancestors@, flow.workers@);
                    match res {
                        Ok(Some(nick)) => if (i as int) < keys.len() {
                            &&& r.0.nicknames@ == flow.nicknames@.push((keys[i as int], nick))
                            &&& load_network_lookups(old(self).s, final(self).s, LoadNetworkFlow { nicknames: r.0.nicknames, ..flow }, i + 1, r,
                                seq!["[load_network_action] nickname for "@ + keys[i as int]@ + "="@ + nick@])
                        } else {
                            load_network_lookups(old(self).s, final(self).s, flow, i + 1, r, Seq::empty())
                        },
                        _ => load_network_lookups(old(self).s, final(self).s, flow, i + 1, r, Seq::empty()),
                    }
                },
                _ => final(self).s == old(self).s && r.0 == (LoadNetworkFlow { stage: LoadNetworkStage::Done, ..flow }) && r.1.logs@.len() == 0 && r.1.request is Finished,
            },
    {
        match (flow.stage, reply) {
            (LoadNetworkStage::AwaitAncestors, GraphReply::Keys(res)) => {
                let ancestors = keys_or_empty(res);
                self.s.network_parents = clone_keys(&ancestors);
                let logs = lines2(count_line("[load_network_action] Got ", ancestors.len(), " ancestors"), "[load_network_action] Fetching workers...".to_owned());
                let request = GraphRequest::GetWorkers { node: flow.node.clone() };
                (LoadNetworkFlow { ancestors, stage: LoadNetworkStage::AwaitWorkers, ..flow }, GraphStep { logs, request })
            },
            (LoadNetworkStage::AwaitWorkers, GraphReply::Keys(res)) => {
                let workers = keys_or_empty(res);
                self.s.network_workers = clone_keys(&workers);
                let logs = lines2(count_line("[load_network_action] Got ", workers.len(), " workers"), "[load_network_action] Fetching own nickname...".to_owned());
                let request = GraphRequest::GetNickname { node: flow.node.clone() };
                (LoadNetworkFlow { workers, stage: LoadNetworkStage::AwaitOwnNickname, ..flow }, GraphStep { logs, request })
            },
            (LoadNetworkStage::AwaitOwnNickname, GraphReply::Lookup(res)) => {
                let logs = lookup_report(&res, "[load_network_action] Own nickname=", "[load_network_action] Fetching GUN address...");
                if let Ok(Some(v)) = res {
                    self.s.nickname = v;
                }
                let request = GraphRequest::GetGunAddress { node: flow.node.clone() };
                (LoadNetworkFlow { stage: LoadNetworkStage::AwaitGunAddress, ..flow }, GraphStep { logs, request })
            },
            (LoadNetworkStage::AwaitGunAddress, GraphReply::Lookup(res)) => {
                let logs = lookup_report(&res, "[load_network_action] GUN address=", "[load_network_action] Fetching GUN relay URL...");
                if let Ok(Some(v)) = res {
                    self.s.gun_address = v;
                }
                let request = GraphRequest::GetGunRelayUrl { node: flow.node.clone() };
                (LoadNetworkFlow { stage: LoadNetworkStage::AwaitRelayUrl, ..flow }, GraphStep { logs, request })
            },
            (LoadNetworkStage::AwaitRelayUrl, GraphReply::Lookup(res)) => {
                let logs = lookup_report(&res, "[load_network_action] GUN relay URL=", "[load_network_action] Fetching nicknames for ancestors and workers...");
                if let Ok(Some(v)) = res {
                    self.s.gun_relay_url = v;
                }
                self.load_network_lookup(flow, 0, logs)
            },
            (LoadNetworkStage::AwaitNickname(i), GraphReply::Lookup(res)) => {
                let keys = append_keys(&flow.ancestors, &flow.workers);
                let mut nicknames = flow.nicknames;
                let mut logs = empty_lines();
                if let Ok(Some(nick)) = res {
                    if i < keys.len() {
                        let mut line = concat("[load_network_action] nickname for ", keys[i].as_str());
                        line.append("=");
                        line.append(nick.as_str());
                        logs = lines1(line);
                        nicknames.push((keys[i].clone(), nick));
                    }
                }
                let next = if i < keys.len() { i + 1 } else { keys.len() };
                self.load_network_lookup(LoadNetworkFlow { nicknames, ..flow }, next, logs)
            },
            _ => (LoadNetworkFlow { stage: LoadNetworkStage::Done, ..flow }, graph_finished(empty_lines())),
        }
    }

    /// Generate the SEA key pair from the typed passphrase. An empty passphrase does
    /// nothing.
    pub fn generate_sea_keys(&mut self) -> (r: (SeaFlow, GraphStep))
        ensures
            final(self).s == old(self).s,
            old(self).s.sea_modal_input@.len() == 0 ==> r.1.logs@.len() == 0 && r.1.request is Finished,
            old(self).s.sea_modal_input@.len() > 0 ==> {
                &&& r.0.stage is AwaitPair
                &&& r.0.passphrase == old(self).s.sea_modal_input
                &&& r.0.node == old(self).s.public_key
                &&& r.0.context.language == old(self).s.language
                &&& (trim(old(self).s.gun_relay_url@).len() == 0 ==> r.0.context.peers@.len() == 0)
                &&& (trim(old(self).s.gun_relay_url@).len() > 0 ==> r.0.context.peers@ == seq![old(self).s.gun_relay_url])
                &&& texts(r.1.logs@) == seq!["[generate_sea_keys] Starting SEA key generation from passphrase"@]
                &&& (r.1.request matches GraphRequest::SeaPairFromSeed { passphrase } && passphrase == old(self).s.sea_modal_input)
            },
    {
        let passphrase = self.s.sea_modal_input.clone();
        let context = GraphContext { language: self.s.language, peers: self.gun_peers() };
        let node = clone_text(&self.s.public_key);
        if passphrase.as_str().unicode_len() == 0 {
            return (SeaFlow { context, passphrase, node, stage: SeaStage::Done }, graph_finished(empty_lines()));
        }
        let request = GraphRequest::SeaPairFromSeed { passphrase: passphrase.clone() };
        let logs = lines1("[generate_sea_keys] Starting SEA key generation from passphrase".to_owned());
        (SeaFlow { context, passphrase, node, stage: SeaStage::AwaitPair }, GraphStep { logs, request })
    }

    fn close_sea(&mut self)
        ensures
            sea_modal_closed(old(self).s, final(self).s),
    {
        crate::text::wipe(&mut self.s.sea_modal_input);
        self.s.sea_modal_open = false;
    }

    /// Continue generating the SEA keys with the answer `reply`.
    #[verifier::rlimit(40)]
    pub fn generate_sea_keys_step(&mut self, flow: SeaFlow, reply: GraphReply) -> (r: (SeaFlow, GraphStep))
        ensures
            match (flow.stage, reply) {
                (SeaStage::AwaitPair, GraphReply::SeaPair(Ok(pub_key))) => {
                    let generated = "[generate_sea_keys] SEA keys generated. pub_key="@ + pub_key@;
                    match flow.node {
                        Some(node) => {
                            &&& final(self).s == (WalletState { gun_address: pub_key, ..old(self).s })
                            &&& r.0 == (SeaFlow { stage: SeaStage::AwaitStore, ..flow })
                            &&& texts(r.1.logs@) == seq![generated, "[generate_sea_keys] Storing GUN address to GunDB for node "@ + node@]
                            &&& (r.1.request matches GraphRequest::SetGunAddress { node: n, address } && n == node && address@ == pub_key@)
                        },
                        None => {
                            &&& final(self).s == (WalletState { gun_address: final(self).s.gun_address, has_sea_key_pair: true, ..old(self).s })
                            &&& final(self).s.gun_address@ == pub_key@
                            &&& sea_splits(flow, r, seq![generated])
                        },
                    }
                },
                (SeaStage::AwaitPair, GraphReply::SeaPair(Err(e))) => {
                    &&& sea_modal_closed(old(self).s, final(self).s)
                    &&& r.0 == (SeaFlow { stage: SeaStage::Done, ..flow })
                    &&& texts(r.1.logs@) == seq![
                        "[generate_sea_keys] SEA key generation failed: "@ + e@,
                        ui_fmt_with(flow.context.language, UiFmt::SeaGenerationError, e@),
                    ]
                    &&& r.1.request is Finished
                },
                (SeaStage::AwaitStore, GraphReply::Written(res)) => {
                    &&& final(self).s == (WalletState { has_sea_key_pair: true, ..old(self).s })
                    &&& sea_splits(flow, r, seq![match res {
                        Ok(_) => "[generate_sea_keys] GUN address stored successfully"@,
                        Err(e) => "[generate_sea_keys] Failed to store GUN address: "@ + e@,
                    }])
                },
                (SeaStage::AwaitShares, GraphReply::Shares(shares)) => {
                    &&& sea_modal_closed(WalletState { sss_shares: Some(shares), ..old(self).s }, final(self).s)
                    &&& r.0 == (SeaFlow { stage: SeaStage::Done, ..flow })
                    &&& texts(r.1.logs@) == seq![
                        "[generate_sea_keys] SSS shares generated: "@ + decimal_nat(shares@.len()) + " shares, threshold 3"@,
                        ui_str(flow.context.language, UiStr::SeaKeysGenerated),
                    ]
                    &&& r.1.request is Finished
                },
                _ => final(self).s == old(self).s && r.0 == (SeaFlow { stage: SeaStage::Done, ..flow }) && r.1.logs@.len() == 0 && r.1.request is Finished,
            },
    {
        let i18n = ui_i18n(flow.context.language);
        match (flow.stage, reply) {
            (SeaStage::AwaitPair, GraphReply::SeaPair(Ok(pub_key))) => {
                let generated = concat("[generate_sea_keys] SEA keys generated. pub_key=", pub_key.as_str());
                match clone_text(&flow.node) {
                    Some(node) => {
                        let logs = lines2(generated, concat("[generate_sea_keys] Storing GUN address to GunDB for node ", node.as_str()));
                        let request = GraphRequest::SetGunAddress { node, address: pub_key.clone() };
                        self.s.gun_address = pub_key;
                        (SeaFlow { stage: SeaStage::AwaitStore, ..flow }, GraphStep { logs, request })
                    },
                    None => {
                        self.s.gun_address = pub_key;
                        self.s.has_sea_key_pair = true;
                        sea_split(flow, lines1(generated))
                    },
                }
            },
            (SeaStage::AwaitPair, GraphReply::SeaPair(Err(e))) => {
                let logs = lines2(concat("[generate_sea_keys] SEA key generation failed: ", e.as_str()), i18n.sea_generation_error(e.as_str()));
                self.close_sea();
                (SeaFlow { stage: SeaStage::Done, ..flow }, graph_finished(logs))
            },
            (SeaStage::AwaitStore, GraphReply::Written(res)) => {
                let line = match res {
                    Ok(_) => "[generate_sea_keys] GUN address stored successfully".to_owned(),
                    Err(e) => concat("[generate_sea_keys] Failed to store GUN address: ", e.as_str()),
                };
                self.s.has_sea_key_pair = true;
                sea_split(flow, lines1(line))
            },
            (SeaStage::AwaitShares, GraphReply::Shares(shares)) => {
                let logs = lines2(count_line("[generate_sea_keys] SSS shares generated: ", shares.len(), " shares, threshold 3"), i18n.sea_keys_generated().to_owned());
                self.s.sss_shares = Some(shares);
                self.close_sea();
                (SeaFlow { stage: SeaStage::Done, ..flow }, graph_finished(logs))
            },
            _ => (SeaFlow { stage: SeaStage::Done, ..flow }, graph_finished(empty_lines())),
        }
    }

    /// Save the typed nickname in the graph database (a SEA key pair and a public key are
    /// needed).
    pub fn save_nickname_action(&mut self) -> (r: (GraphWriteFlow, GraphStep))
        ensures
            write_refused(old(self).s, final(self).s, "[save_nickname_action] No SEA keypair, opening modal"@, "[save_nickname_action] No public key"@, r),
            old(self).s.has_sea_key_pair ==> (old(self).s.public_key matches Some(pk) ==> {
                &&& final(self).s == old(self).s
                &&& r.0.awaiting
                &&& r.0.context.language == old(self).s.language
                &&& (trim(old(self).s.gun_relay_url@).len() == 0 ==> r.0.context.peers@.len() == 0)
                &&& (trim(old(self).s.gun_relay_url@).len() > 0 ==> r.0.context.peers@ == seq![old(self).s.gun_relay_url])
                &&& texts(r.1.logs@) == seq!["[save_nickname_action] Saving nickname '"@ + old(self).s.nickname@ + "' for pk="@ + pk@]
                &&& r.1.request == GraphRequest::SetNickname { node: pk, nickname: old(self).s.nickname }
            }),
    {
        let context = GraphContext { language: self.s.language, peers: self.gun_peers() };
        if !self.s.has_sea_key_pair {
            self.open_sea_modal();
            return (GraphWriteFlow { context, awaiting: false }, graph_finished(lines1("[save_nickname_action] No SEA keypair, opening modal".to_owned())));
        }
        match clone_text(&self.s.public_key) {
            None => {
                (GraphWriteFlow { context, awaiting: false }, graph_finished(lines1("[save_nickname_action] No public key".to_owned())))
            },
            Some(pk) => {
                let nickname = self.s.nickname.clone();
                let mut line = concat("[save_nickname_action] Saving nickname '", nickname.as_str());
                line.append("' for pk=");
                line.append(pk.as_str());
                (GraphWriteFlow { context, awaiting: true }, GraphStep { logs: lines1(line), request: GraphRequest::SetNickname { node: pk, nickname } })
            },
        }
    }

    /// The graph database answered the nickname write.
    pub fn save_nickname_step(&mut self, flow: GraphWriteFlow, reply: GraphReply) -> (r: (GraphWriteFlow, GraphStep))
        ensures
            final(self).s == old(self).s,
            r.0 == (GraphWriteFlow { awaiting: false, ..flow }),
            r.1.request is Finished,
            flow.awaiting ==> match reply {
                GraphReply::Written(Ok(_)) => texts(r.1.logs@) == seq![
                    "[save_nickname_action] Nickname saved successfully"@,
                    ui_str(flow.context.language, UiStr::NicknameSaved),
                ],
                GraphReply::Written(Err(e)) => texts(r.1.logs@) == seq![
                    "[save_nickname_action] Failed to save nickname: "@ + e@,
                    ui_fmt_with(flow.context.language, UiFmt::NicknameSaveError, e@),
                ],
                _ => r.1.logs@.len() == 0,
            },
            !flow.awaiting ==> r.1.logs@.len() == 0,
    {
        let i18n = ui_i18n(flow.context.language);
        let logs = if !flow.awaiting {
            empty_lines()
        } else {
            match reply {
                GraphReply::Written(Ok(_)) => lines2("[save_nickname_action] Nickname saved successfully".to_owned(), i18n.nickname_saved().to_owned()),
                GraphReply::Written(Err(e)) => lines2(concat("[save_nickname_action] Failed to save nickname: ", e.as_str()), i18n.nickname_save_error(e.as_str())),
                _ => empty_lines(),
            }
        };
        (GraphWriteFlow { awaiting: false, ..flow }, graph_finished(logs))
    }

    /// Save the typed GUN relay URL in the graph database, talking to that relay (a SEA
    /// key pair and a public key are needed).
    pub fn save_gun_relay_action(&mut self) -> (r: (GraphWriteFlow, GraphStep))
        ensures
            write_refused(old(self).s, final(self).s, "[save_gun_relay_action] No SEA keypair, opening modal"@, "[save_gun_relay_action] No public key"@, r),
            old(self).s.has_sea_key_pair ==> (old(self).s.public_key matches Some(pk) ==> {
                &&& final(self).s == old(self).s
                &&& r.0.awaiting
                &&& r.0.context.language == old(self).s.language
                &&& (trim(old(self).s.gun_relay_url@).len() == 0 ==> r.0.context.peers@.len() == 0)
                &&& (trim(old(self).s.gun_relay_url@).len() > 0 ==> r.0.context.peers@ == seq![old(self).s.gun_relay_url])
                &&& texts(r.1.logs@) == seq!["[save_gun_relay_action] Saving relay URL: "@ + old(self).s.gun_relay_url@]
                &&& r.1.request == GraphRequest::SetGunRelayUrl { node: pk, url: old(self).s.gun_relay_url }
            }),
    {
        let context = GraphContext { language: self.s.language, peers: self.gun_peers() };
        if !self.s.has_sea_key_pair {
            self.open_sea_modal();
            return (GraphWriteFlow { context, awaiting: false }, graph_finished(lines1("[save_gun_relay_action] No SEA keypair, opening modal".to_owned())));
        }
        match clone_text(&self.s.public_key) {
            None => {
                (GraphWriteFlow { context, awaiting: false }, graph_finished(lines1("[save_gun_relay_action] No public key".to_owned())))
            },
            Some(pk) => {
                let url = self.s.gun_relay_url.clone();
                let line = concat("[save_gun_relay_action] Saving relay URL: ", url.as_str());
                (GraphWriteFlow { context, awaiting: true }, GraphStep { logs: lines1(line), request: GraphRequest::SetGunRelayUrl { node: pk, url } })
            },
        }
    }

    /// The graph database answered the relay URL write.
    pub fn save_gun_relay_step(&mut self, flow: GraphWriteFlow, reply: GraphReply) -> (r: (GraphWriteFlow, GraphStep))
        ensures
            final(self).s == old(self).s,
            r.0 == (GraphWriteFlow { awaiting: false, ..flow }),
            r.1.request is Finished,
            flow.awaiting ==> match reply {
                GraphReply::Written(Ok(_)) => texts(r.1.logs@) == seq!["[save_gun_relay_action] Relay URL saved successfully"@],
                GraphReply::Written(Err(e)) => texts(r.1.logs@) == seq!["[save_gun_relay_action] Failed to save relay URL: "@ + e@],
                _ => r.1.logs@.len() == 0,
            },
            !flow.awaiting ==> r.1.logs@.len() == 0,
    {
        let logs = if !flow.awaiting {
            empty_lines()
        } else {
            match reply {
                GraphReply::Written(Ok(_)) => lines1("[save_gun_relay_action] Relay URL saved successfully".to_owned()),
                GraphReply::Written(Err(e)) => lines1(concat("[save_gun_relay_action] Failed to save relay URL: ", e.as_str())),
                _ => empty_lines(),
            }
        };
        (GraphWriteFlow { awaiting: false, ..flow }, graph_finished(logs))
    }
}

} // verus!
